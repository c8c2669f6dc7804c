//! Escaping for XML and HTML, and answers that carry text.

use vstd::prelude::*;
use vstd::string::*;

use crate::text::chars_of;

verus! {

/// An answer with a body of text.
#[derive(Clone, Debug)]
pub struct TextReply {
    pub status: u16,
    pub content_type: &'static str,
    pub body: String,
}

/// What stands for `c` in element text and in quoted attribute values.
/// Apostrophes stay: attributes are written in double quotes.
pub open spec fn escaped_char(c: char) -> Seq<char> {
    if c == '&' {
        "&amp;"@
    } else if c == '<' {
        "&lt;"@
    } else if c == '>' {
        "&gt;"@
    } else if c == '"' {
        "&quot;"@
    } else {
        seq![c]
    }
}

/// `s` with each character escaped.
pub open spec fn escaped(s: Seq<char>) -> Seq<char>
    decreases s.len(),
{
    if s.len() == 0 {
        Seq::empty()
    } else {
        escaped(s.drop_last()) + escaped_char(s.last())
    }
}

/// `s` with `&`, `<`, `>` and `"` escaped.
pub fn xml_escape(s: &str) -> (r: String)
    ensures
        r@ == escaped(s@),
{
    let cs = chars_of(s);
    let mut out = String::new();
    let mut i: usize = 0;
    while i < cs.len()
        invariant
            i <= cs.len(),
            cs@ == s@,
            out@ == escaped(s@.take(i as int)),
        decreases cs.len() - i,
    {
        let c = cs[i];
        if c == '&' {
            out.append("&amp;");
        } else if c == '<' {
            out.append("&lt;");
        } else if c == '>' {
            out.append("&gt;");
        } else if c == '"' {
            out.append("&quot;");
        } else {
            out.push(c);
        }
        proof {
            let next = s@.take(i + 1);
            assert(next.drop_last() =~= s@.take(i as int));
            assert(next.last() == c);
            assert(out@ =~= escaped(s@.take(i as int)) + escaped_char(c));
        }
        i += 1;
    }
    assert(s@.take(i as int) =~= s@);
    out
}

/// Escaping goes character by character: it distributes over joining.
pub proof fn law_escape_distributes(a: Seq<char>, b: Seq<char>)
    ensures
        escaped(a + b) == escaped(a) + escaped(b),
    decreases b.len(),
{
    if b.len() == 0 {
        assert(a + b =~= a);
        assert(escaped(a) + escaped(b) =~= escaped(a));
    } else {
        assert((a + b).drop_last() =~= a + b.drop_last());
        law_escape_distributes(a, b.drop_last());
        assert(escaped(a + b) =~= escaped(a) + escaped(b));
    }
}

/// The characters of what stands for `c`.
proof fn lemma_escaped_char(c: char)
    ensures
        escaped_char(c).len() >= 1,
        forall|i: int|
            0 <= i < escaped_char(c).len() ==> escaped_char(c)[i] != '<' && escaped_char(c)[i]
                != '>' && escaped_char(c)[i] != '"',
        escaped_char(c)[0] == '&' <==> c == '&' || c == '<' || c == '>' || c == '"',
        c == '&' ==> escaped_char(c) == seq!['&', 'a', 'm', 'p', ';'],
        c == '<' ==> escaped_char(c) == seq!['&', 'l', 't', ';'],
        c == '>' ==> escaped_char(c) == seq!['&', 'g', 't', ';'],
        c == '"' ==> escaped_char(c) == seq!['&', 'q', 'u', 'o', 't', ';'],
{
    reveal_strlit("&amp;");
    reveal_strlit("&lt;");
    reveal_strlit("&gt;");
    reveal_strlit("&quot;");
    assert("&amp;"@ =~= seq!['&', 'a', 'm', 'p', ';']);
    assert("&lt;"@ =~= seq!['&', 'l', 't', ';']);
    assert("&gt;"@ =~= seq!['&', 'g', 't', ';']);
    assert("&quot;"@ =~= seq!['&', 'q', 'u', 'o', 't', ';']);
}

/// Escaped text opens no tag and closes no attribute: it holds none of `<`, `>`
/// and `"`.
pub proof fn law_escaped_text_is_inert(s: Seq<char>)
    ensures
        forall|i: int|
            0 <= i < escaped(s).len() ==> escaped(s)[i] != '<' && escaped(s)[i] != '>'
                && escaped(s)[i] != '"',
    decreases s.len(),
{
    if s.len() > 0 {
        law_escaped_text_is_inert(s.drop_last());
        lemma_escaped_char(s.last());
        let head = escaped(s.drop_last());
        assert forall|i: int| 0 <= i < escaped(s).len() implies escaped(s)[i] != '<' && escaped(
            s,
        )[i] != '>' && escaped(s)[i] != '"' by {
            if i >= head.len() {
                assert(escaped(s)[i] == escaped_char(s.last())[i - head.len()]);
            }
        }
    }
}

/// Text that holds none of the four characters is its own escaped form.
pub proof fn law_plain_text_stays(s: Seq<char>)
    requires
        forall|i: int|
            0 <= i < s.len() ==> s[i] != '&' && s[i] != '<' && s[i] != '>' && s[i] != '"',
    ensures
        escaped(s) == s,
    decreases s.len(),
{
    if s.len() > 0 {
        law_plain_text_stays(s.drop_last());
        assert(s =~= s.drop_last() + seq![s.last()]);
    } else {
        assert(escaped(s) =~= s);
    }
}

/// Nothing is lost in escaping: texts with one escaped form are one text.
pub proof fn law_escape_is_injective(a: Seq<char>, b: Seq<char>)
    requires
        escaped(a) == escaped(b),
    ensures
        a == b,
    decreases a.len(),
{
    if a.len() == 0 || b.len() == 0 {
        let c = if a.len() == 0 {
            b
        } else {
            a
        };
        if c.len() > 0 {
            lemma_escaped_char(c.last());
            assert(escaped(c).len() > 0);
        }
        assert(a =~= b);
    } else {
        let x = a[0];
        let y = b[0];
        let ra = a.drop_first();
        let rb = b.drop_first();
        assert(a =~= seq![x] + ra);
        assert(b =~= seq![y] + rb);
        law_escape_distributes(seq![x], ra);
        law_escape_distributes(seq![y], rb);
        lemma_escaped_one(x);
        lemma_escaped_one(y);
        lemma_escaped_char(x);
        lemma_escaped_char(y);
        let ex = escaped_char(x);
        let ey = escaped_char(y);
        assert(escaped(a)[0] == ex[0]);
        assert(escaped(b)[0] == ey[0]);
        if ex[0] == '&' {
            assert(escaped(a)[1] == ex[1]);
            assert(escaped(b)[1] == ey[1]);
        }
        assert(x == y);
        assert(escaped(ra) =~= escaped(a).skip(ex.len() as int));
        assert(escaped(rb) =~= escaped(b).skip(ex.len() as int));
        law_escape_is_injective(ra, rb);
    }
}

/// The escaped form of a text of one character.
proof fn lemma_escaped_one(c: char)
    ensures
        escaped(seq![c]) == escaped_char(c),
{
    assert(seq![c].drop_last() =~= Seq::<char>::empty());
    assert(escaped(seq![c].drop_last()) =~= Seq::<char>::empty());
    assert(escaped(seq![c]) =~= escaped_char(c));
}

} // verus!
