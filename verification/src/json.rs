//! Text inside a JSON string: the characters that cannot stand there as
//! they are, the quote, the backslash and the control characters, are
//! written as escapes.

use vstd::prelude::*;
use vstd::string::*;

verus! {

/// The hexadecimal digit `d` as a character, in lower case.
pub open spec fn hex_char(d: int) -> char {
    if d == 0 {
        '0'
    } else if d == 1 {
        '1'
    } else if d == 2 {
        '2'
    } else if d == 3 {
        '3'
    } else if d == 4 {
        '4'
    } else if d == 5 {
        '5'
    } else if d == 6 {
        '6'
    } else if d == 7 {
        '7'
    } else if d == 8 {
        '8'
    } else if d == 9 {
        '9'
    } else if d == 10 {
        'a'
    } else if d == 11 {
        'b'
    } else if d == 12 {
        'c'
    } else if d == 13 {
        'd'
    } else if d == 14 {
        'e'
    } else {
        'f'
    }
}

/// The number that the hexadecimal digit `c` stands for; -1 when `c` is no
/// hexadecimal digit.
pub open spec fn hex_value(c: char) -> int {
    if '0' <= c <= '9' {
        c as int - '0' as int
    } else if 'a' <= c <= 'f' {
        c as int - 'a' as int + 10
    } else if 'A' <= c <= 'F' {
        c as int - 'A' as int + 10
    } else {
        -1
    }
}

/// A control character: one below the space.
pub open spec fn is_control(c: char) -> bool {
    (c as u32) < 0x20
}

/// How `c` is written inside a JSON string: the quote and the backslash
/// after a backslash, a control character as `\u00` and its two
/// hexadecimal digits, every other character as it is.
pub open spec fn escape_of(c: char) -> Seq<char> {
    if c == '"' {
        seq!['\\', '"']
    } else if c == '\\' {
        seq!['\\', '\\']
    } else if is_control(c) {
        seq![
            '\\',
            'u',
            '0',
            '0',
            hex_char((c as u32 / 16) as int),
            hex_char((c as u32 % 16) as int),
        ]
    } else {
        seq![c]
    }
}

/// `s` as it is written inside a JSON string.
pub open spec fn escaped(s: Seq<char>) -> Seq<char>
    decreases s.len(),
{
    if s.len() == 0 {
        Seq::empty()
    } else {
        escape_of(s.first()) + escaped(s.drop_first())
    }
}

/// Whether `t` can stand between the quotes of a JSON string: it holds no
/// control character, no quote but after a backslash, and no backslash but
/// before a quote, a backslash, or `u` and four hexadecimal digits.
pub open spec fn is_string_body(t: Seq<char>) -> bool
    decreases t.len(),
{
    if t.len() == 0 {
        true
    } else if t[0] == '\\' {
        if t.len() >= 2 && (t[1] == '"' || t[1] == '\\') {
            is_string_body(t.skip(2))
        } else {
            &&& t.len() >= 6
            &&& t[1] == 'u'
            &&& hex_value(t[2]) >= 0
            &&& hex_value(t[3]) >= 0
            &&& hex_value(t[4]) >= 0
            &&& hex_value(t[5]) >= 0
            &&& is_string_body(t.skip(6))
        }
    } else {
        t[0] != '"' && !is_control(t[0]) && is_string_body(t.skip(1))
    }
}

/// What the body `t` of a JSON string stands for: each escape is read as
/// the character it was written for.
pub open spec fn unescaped(t: Seq<char>) -> Seq<char>
    decreases t.len(),
{
    if t.len() == 0 {
        Seq::empty()
    } else if t[0] == '\\' && t.len() >= 2 && (t[1] == '"' || t[1] == '\\') {
        seq![t[1]] + unescaped(t.skip(2))
    } else if t[0] == '\\' && t.len() >= 6 && t[1] == 'u' {
        seq![
            (4096 * hex_value(t[2]) + 256 * hex_value(t[3]) + 16 * hex_value(t[4]) + hex_value(
                t[5],
            )) as char,
        ] + unescaped(t.skip(6))
    } else {
        seq![t[0]] + unescaped(t.skip(1))
    }
}

/// One more character is one more escape at the end.
pub proof fn lemma_escaped_push(s: Seq<char>, c: char)
    ensures
        escaped(s.push(c)) == escaped(s) + escape_of(c),
    decreases s.len(),
{
    if s.len() == 0 {
        let one = s.push(c);
        assert(one.first() == c);
        assert(one.drop_first() =~= Seq::<char>::empty());
        assert(escaped(one.drop_first()) =~= Seq::<char>::empty());
        assert(escaped(one) =~= escape_of(c));
        assert(escaped(s) + escape_of(c) =~= escape_of(c));
    } else {
        lemma_escaped_push(s.drop_first(), c);
        assert(s.push(c).drop_first() =~= s.drop_first().push(c));
        assert(escape_of(s.first()) + (escaped(s.drop_first()) + escape_of(c)) =~= (escape_of(
            s.first(),
        ) + escaped(s.drop_first())) + escape_of(c));
    }
}

/// A control character is read back from its code.
pub proof fn lemma_control_code(c: char)
    requires
        is_control(c),
    ensures
        (c as u32) < 0x20,
        ((c as u32) as char) == c,
{
}

/// The hexadecimal digits are read back as they were written.
pub proof fn lemma_hex(d: int)
    requires
        0 <= d < 16,
    ensures
        hex_value(hex_char(d)) == d,
{
}

/// Escaping is sound: what is written can stand inside a JSON string,
/// holds no control character, so no line feed either, and is read back
/// as the text it was written for.
pub proof fn law_escaped(s: Seq<char>)
    ensures
        is_string_body(escaped(s)),
        unescaped(escaped(s)) == s,
        forall|i: int| 0 <= i < escaped(s).len() ==> !is_control(#[trigger] escaped(s)[i]),
    decreases s.len(),
{
    if s.len() > 0 {
        let c = s.first();
        let rest = escaped(s.drop_first());
        let head = escape_of(c);
        let t = escaped(s);
        law_escaped(s.drop_first());
        assert(t.skip(head.len() as int) =~= rest);
        assert forall|i: int| 0 <= i < head.len() implies t[i] == head[i] by {}
        if is_control(c) && c != '"' && c != '\\' {
            let code = c as u32;
            lemma_control_code(c);
            lemma_hex((code / 16) as int);
            lemma_hex((code % 16) as int);
            assert(t[0] == '\\' && t[1] == 'u' && t[2] == '0' && t[3] == '0');
            assert(t[4] == hex_char((code / 16) as int));
            assert(t[5] == hex_char((code % 16) as int));
            assert(4096 * hex_value(t[2]) + 256 * hex_value(t[3]) + 16 * hex_value(t[4])
                + hex_value(t[5]) == code);
            assert((code as char) == c);
        } else if c == '"' || c == '\\' {
            assert(t[0] == '\\' && t[1] == c);
        } else {
            assert(t[0] == c);
        }
        assert(unescaped(t) =~= seq![c] + s.drop_first());
        assert(seq![c] + s.drop_first() =~= s);
        assert forall|i: int| 0 <= i < t.len() implies !is_control(#[trigger] t[i]) by {
            if i >= head.len() {
                assert(t[i] == rest[i - head.len()]);
            } else {
                assert(t[i] == head[i]);
            }
        }
    }
}

fn hex_text(d: u32) -> (r: &'static str)
    requires
        d < 16,
    ensures
        r@ == seq![hex_char(d as int)],
{
    proof {
        reveal_strlit("0");
        reveal_strlit("1");
        reveal_strlit("2");
        reveal_strlit("3");
        reveal_strlit("4");
        reveal_strlit("5");
        reveal_strlit("6");
        reveal_strlit("7");
        reveal_strlit("8");
        reveal_strlit("9");
        reveal_strlit("a");
        reveal_strlit("b");
        reveal_strlit("c");
        reveal_strlit("d");
        reveal_strlit("e");
        reveal_strlit("f");
    }
    let r = if d == 0 {
        "0"
    } else if d == 1 {
        "1"
    } else if d == 2 {
        "2"
    } else if d == 3 {
        "3"
    } else if d == 4 {
        "4"
    } else if d == 5 {
        "5"
    } else if d == 6 {
        "6"
    } else if d == 7 {
        "7"
    } else if d == 8 {
        "8"
    } else if d == 9 {
        "9"
    } else if d == 10 {
        "a"
    } else if d == 11 {
        "b"
    } else if d == 12 {
        "c"
    } else if d == 13 {
        "d"
    } else if d == 14 {
        "e"
    } else {
        "f"
    };
    assert(r@ =~= seq![hex_char(d as int)]);
    r
}

/// `text` as it is written inside a JSON string.
pub fn escape(text: &str) -> (r: String)
    ensures
        r@ == escaped(text@),
{
    let n = text.unicode_len();
    let mut r = String::new();
    let mut i: usize = 0;
    proof {
        assert(text@.take(0) =~= Seq::<char>::empty());
    }
    while i < n
        invariant
            i <= n == text@.len(),
            r@ == escaped(text@.take(i as int)),
        decreases n - i,
    {
        let c = text.get_char(i);
        let ghost before = r@;
        proof {
            assert(text@.take(i + 1) =~= text@.take(i as int).push(c));
            lemma_escaped_push(text@.take(i as int), c);
        }
        if c == '"' {
            proof {
                reveal_strlit("\\\"");
                assert("\\\""@ =~= escape_of(c));
            }
            r = r.concat("\\\"");
        } else if c == '\\' {
            proof {
                reveal_strlit("\\\\");
                assert("\\\\"@ =~= escape_of(c));
            }
            r = r.concat("\\\\");
        } else if (c as u32) < 0x20 {
            let code = c as u32;
            proof {
                reveal_strlit("\\u00");
                assert("\\u00"@ =~= seq!['\\', 'u', '0', '0']);
            }
            r = r.concat("\\u00").concat(hex_text(code / 16)).concat(hex_text(code % 16));
            assert(r@ =~= before + escape_of(c));
        } else {
            assert(text@.subrange(i as int, i + 1) =~= escape_of(c));
            r = r.concat(text.substring_char(i, i + 1));
        }
        i = i + 1;
    }
    proof {
        assert(text@.take(n as int) =~= text@);
    }
    r
}

} // verus!
