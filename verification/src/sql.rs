//! Writing SQL text: quoted identifiers, bind placeholders and decimal
//! integers, as SQLite's query builder writes them.

use vstd::prelude::*;

verus! {

/// The characters of an identifier with every backtick doubled.
pub open spec fn escape_backticks(s: Seq<char>) -> Seq<char>
    decreases s.len(),
{
    if s.len() == 0 {
        Seq::empty()
    } else {
        escape_backticks(s.drop_last()) + (if s.last() == '`' {
            seq!['`', '`']
        } else {
            seq![s.last()]
        })
    }
}

/// An identifier as SQLite's query builder writes it: between backticks,
/// with each backtick inside doubled.
pub open spec fn quoted_identifier(s: Seq<char>) -> Seq<char> {
    seq!['`'] + escape_backticks(s) + seq!['`']
}

/// Appends `identifier` to `out` as a quoted identifier.
pub fn push_identifier(out: &mut String, identifier: &str)
    ensures
        final(out)@ == old(out)@ + quoted_identifier(identifier@),
{
    let ghost start = out@;
    proof {
        reveal_strlit("`");
        reveal_strlit("``");
    }
    assert("`"@ =~= seq!['`']);
    out.append("`");
    assert(out@ =~= start + seq!['`'] + escape_backticks(identifier@.take(0)));
    let n = identifier.unicode_len();
    let mut i: usize = 0;
    while i < n
        invariant
            n == identifier@.len(),
            i <= n,
            out@ == start + seq!['`'] + escape_backticks(identifier@.take(i as int)),
        decreases n - i,
    {
        let c = identifier.get_char(i);
        let ghost before = out@;
        proof {
            reveal_strlit("``");
        }
        assert("``"@ =~= seq!['`', '`']);
        if c == '`' {
            out.append("``");
            assert(out@ =~= before + seq!['`', '`']);
        } else {
            let one = identifier.substring_char(i, i + 1);
            out.append(one);
            assert(one@ =~= seq![c]);
        }
        assert(identifier@.take((i + 1) as int).drop_last() =~= identifier@.take(i as int));
        assert(identifier@.take((i + 1) as int).last() == c);
        let ghost next = identifier@.take((i + 1) as int);
        assert(escape_backticks(next) == escape_backticks(identifier@.take(i as int)) + (if c == '`' {
            seq!['`', '`']
        } else {
            seq![c]
        }));
        assert(out@ =~= start + seq!['`'] + escape_backticks(next));
        i = i + 1;
    }
    assert(identifier@.take(n as int) =~= identifier@);
    proof {
        reveal_strlit("`");
    }
    assert("`"@ =~= seq!['`']);
    out.append("`");
}

/// The decimal digits of a natural number.
pub open spec fn decimal_digits(n: nat) -> Seq<char>
    decreases n,
{
    if n < 10 {
        seq![digit_char(n)]
    } else {
        decimal_digits(n / 10) + seq![digit_char(n % 10)]
    }
}

/// The digit character for a value below ten.
pub open spec fn digit_char(d: nat) -> char {
    if d == 0 {
        '0'
    } else if d == 1 {
        '1'
    } else if d == 2 {
        '2'
    } else if d == 3 {
        '3'
    } else if d == 4 {
        '4'
    } else if d == 5 {
        '5'
    } else if d == 6 {
        '6'
    } else if d == 7 {
        '7'
    } else if d == 8 {
        '8'
    } else {
        '9'
    }
}

/// An integer in decimal, with a leading `-` when it is negative.
pub open spec fn decimal_text(n: int) -> Seq<char> {
    if n < 0 {
        seq!['-'] + decimal_digits((-n) as nat)
    } else {
        decimal_digits(n as nat)
    }
}

/// `<u32 as ToString>::to_string`: the decimal digits of the number.
#[verifier::external_body]
pub(crate) fn u32_to_string(n: u32) -> (r: String)
    ensures
        r@ == decimal_text(n as int),
{
    n.to_string()
}

/// `<i32 as ToString>::to_string`: the number in decimal, with a leading `-`
/// when it is negative.
#[verifier::external_body]
pub(crate) fn i32_to_string(n: i32) -> (r: String)
    ensures
        r@ == decimal_text(n as int),
{
    n.to_string()
}

/// The last character of an escaped text is a backtick exactly when the
/// text ends in a backtick, and escaping keeps at least the length.
proof fn lemma_escape_shape(s: Seq<char>)
    ensures
        escape_backticks(s).len() >= s.len(),
        s.len() == 0 <==> escape_backticks(s).len() == 0,
        s.len() > 0 ==> (escape_backticks(s).last() == '`' <==> s.last() == '`'),
        s.len() > 0 && s.last() != '`' ==> escape_backticks(s).last() == s.last(),
    decreases s.len(),
{
    if s.len() > 0 {
        lemma_escape_shape(s.drop_last());
    }
}

/// Quoting is injective: distinct identifiers are written as distinct SQL
/// text, so a quoted name always denotes the name it was made from.
pub proof fn lemma_escape_is_injective(a: Seq<char>, b: Seq<char>)
    requires
        escape_backticks(a) == escape_backticks(b),
    ensures
        a == b,
    decreases a.len() + b.len(),
{
    lemma_escape_shape(a);
    lemma_escape_shape(b);
    if a.len() == 0 || b.len() == 0 {
        if a.len() != 0 || b.len() != 0 {
            assert(false);
        }
        assert(a =~= b);
    } else {
        let ea = escape_backticks(a);
        let eb = escape_backticks(b);
        let pa = escape_backticks(a.drop_last());
        let pb = escape_backticks(b.drop_last());
        if a.last() == '`' {
            assert(b.last() == '`');
            assert(pa =~= ea.subrange(0, ea.len() - 2));
            assert(pb =~= eb.subrange(0, eb.len() - 2));
        } else {
            assert(b.last() != '`');
            assert(b.last() == a.last());
            assert(pa =~= ea.subrange(0, ea.len() - 1));
            assert(pb =~= eb.subrange(0, eb.len() - 1));
        }
        lemma_escape_is_injective(a.drop_last(), b.drop_last());
        assert(a =~= a.drop_last().push(a.last()));
        assert(b =~= b.drop_last().push(b.last()));
    }
}

/// How SQLite reads the rest of a backtick-quoted identifier after its
/// opening backtick: a doubled backtick stands for one backtick and a single
/// one closes the identifier. The result is the identifier and the text
/// after the closing backtick; `None` when the text ends before it closes.
pub open spec fn read_quoted_rest(t: Seq<char>) -> Option<(Seq<char>, Seq<char>)>
    decreases t.len(),
{
    if t.len() == 0 {
        None
    } else if t[0] == '`' {
        if t.len() >= 2 && t[1] == '`' {
            match read_quoted_rest(t.subrange(2, t.len() as int)) {
                Some((name, rest)) => Some((seq!['`'] + name, rest)),
                None => None,
            }
        } else {
            Some((Seq::empty(), t.subrange(1, t.len() as int)))
        }
    } else {
        match read_quoted_rest(t.subrange(1, t.len() as int)) {
            Some((name, rest)) => Some((seq![t[0]] + name, rest)),
            None => None,
        }
    }
}

/// How SQLite reads a backtick-quoted identifier at the start of `t`: the
/// identifier and the text after it.
pub open spec fn read_quoted_identifier(t: Seq<char>) -> Option<(Seq<char>, Seq<char>)> {
    if t.len() > 0 && t[0] == '`' {
        read_quoted_rest(t.subrange(1, t.len() as int))
    } else {
        None
    }
}

/// Escaping a concatenation escapes each part.
proof fn lemma_escape_concat(a: Seq<char>, b: Seq<char>)
    ensures
        escape_backticks(a + b) == escape_backticks(a) + escape_backticks(b),
    decreases b.len(),
{
    if b.len() == 0 {
        assert(a + b =~= a);
        assert(escape_backticks(a) + escape_backticks(b) =~= escape_backticks(a));
    } else {
        lemma_escape_concat(a, b.drop_last());
        assert((a + b).drop_last() =~= a + b.drop_last());
        assert((a + b).last() == b.last());
        let tail = if b.last() == '`' {
            seq!['`', '`']
        } else {
            seq![b.last()]
        };
        assert(escape_backticks(a + b) == escape_backticks(a + b.drop_last()) + tail);
        assert(escape_backticks(b) == escape_backticks(b.drop_last()) + tail);
        assert(escape_backticks(a) + escape_backticks(b) =~= escape_backticks(a) + escape_backticks(
            b.drop_last(),
        ) + tail);
    }
}

/// The escaped characters of `s`, the closing backtick and then `rest` read
/// back as `s` followed by `rest`.
proof fn lemma_escaped_reads_back(s: Seq<char>, rest: Seq<char>)
    requires
        rest.len() == 0 || rest[0] != '`',
    ensures
        read_quoted_rest(escape_backticks(s) + seq!['`'] + rest) == Some((s, rest)),
    decreases s.len(),
{
    let t = escape_backticks(s) + seq!['`'] + rest;
    if s.len() == 0 {
        assert(escape_backticks(s) =~= Seq::<char>::empty());
        assert(t =~= seq!['`'] + rest);
        assert(t.subrange(1, t.len() as int) =~= rest);
    } else {
        let c = s[0];
        let tail = s.subrange(1, s.len() as int);
        assert(s =~= seq![c] + tail);
        lemma_escape_concat(seq![c], tail);
        assert(seq![c].drop_last() =~= Seq::<char>::empty());
        assert(seq![c].last() == c);
        assert(escape_backticks(Seq::<char>::empty()) =~= Seq::<char>::empty());
        assert(escape_backticks(seq![c]) == escape_backticks(seq![c].drop_last()) + (if c == '`' {
            seq!['`', '`']
        } else {
            seq![c]
        }));
        lemma_escaped_reads_back(tail, rest);
        let u = escape_backticks(tail) + seq!['`'] + rest;
        if c == '`' {
            assert(escape_backticks(seq![c]) =~= seq!['`', '`']);
            assert(t =~= seq!['`', '`'] + u);
            assert(t.subrange(2, t.len() as int) =~= u);
            assert(seq!['`'] + tail =~= s);
        } else {
            assert(escape_backticks(seq![c]) =~= seq![c]);
            assert(t =~= seq![c] + u);
            assert(t.subrange(1, t.len() as int) =~= u);
        }
    }
}

/// A quoted identifier reads back as the identifier, and the SQL text after
/// it stays outside it: no name can close the quote early and add SQL of its
/// own. The text after the identifier must not start with a backtick, which
/// would continue the quote (the statements of this library follow an
/// identifier with `.`, a space or nothing).
pub proof fn lemma_quoted_identifier_reads_back(s: Seq<char>, rest: Seq<char>)
    requires
        rest.len() == 0 || rest[0] != '`',
    ensures
        read_quoted_identifier(quoted_identifier(s) + rest) == Some((s, rest)),
{
    let t = quoted_identifier(s) + rest;
    lemma_escaped_reads_back(s, rest);
    assert(t.subrange(1, t.len() as int) =~= escape_backticks(s) + seq!['`'] + rest);
}

/// Quoted identifiers of distinct names are distinct.
pub proof fn lemma_quoted_identifier_is_injective(a: Seq<char>, b: Seq<char>)
    requires
        quoted_identifier(a) == quoted_identifier(b),
    ensures
        a == b,
{
    let qa = quoted_identifier(a);
    let qb = quoted_identifier(b);
    assert(escape_backticks(a) =~= qa.subrange(1, qa.len() - 1));
    assert(escape_backticks(b) =~= qb.subrange(1, qb.len() - 1));
    lemma_escape_is_injective(a, b);
}

} // verus!
