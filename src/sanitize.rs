//! Escaping of the characters that chat markdown gives a meaning to.
use vstd::prelude::*;
use vstd::string::*;

verus! {

/// The characters that markdown reads as formatting.
pub open spec fn is_markdown_token(c: char) -> bool {
    c == '_' || c == '*' || c == '`' || c == '~' || c == '#' || c == '+' || c == '-'
}

/// One character as it stands in escaped text.
pub open spec fn escape_char(c: char) -> Seq<char> {
    if is_markdown_token(c) {
        seq!['\\', c]
    } else {
        seq![c]
    }
}

/// `s` with a backslash put before each markdown token, all else kept.
pub open spec fn escape_markdown(s: Seq<char>) -> Seq<char>
    decreases s.len(),
{
    if s.len() == 0 {
        Seq::empty()
    } else {
        escape_markdown(s.drop_last()) + escape_char(s.last())
    }
}

fn is_token_char(c: char) -> (r: bool)
    ensures
        r == is_markdown_token(c),
{
    c == '_' || c == '*' || c == '`' || c == '~' || c == '#' || c == '+' || c == '-'
}

/// Text without markdown tokens is left as it is.
pub proof fn lemma_escape_plain(s: Seq<char>)
    requires
        forall|i: int| 0 <= i < s.len() ==> !is_markdown_token(#[trigger] s[i]),
    ensures
        escape_markdown(s) == s,
    decreases s.len(),
{
    if s.len() > 0 {
        assert forall|i: int| 0 <= i < s.drop_last().len() implies !is_markdown_token(
            #[trigger] s.drop_last()[i],
        ) by {
            assert(s.drop_last()[i] == s[i]);
        }
        lemma_escape_plain(s.drop_last());
        assert(s.drop_last() + seq![s.last()] =~= s);
    }
}

/// Escapes every markdown token of `s` with a backslash.
pub fn escape(s: &str) -> (r: String)
    ensures
        r@ == escape_markdown(s@),
{
    let n = s.unicode_len();
    let mut out = String::new();
    let backslash = "\\";
    proof {
        reveal_strlit("\\");
    }
    let mut i: usize = 0;
    while i < n
        invariant
            i <= n,
            n == s@.len(),
            backslash@ == seq!['\\'],
            out@ == escape_markdown(s@.subrange(0, i as int)),
        decreases n - i,
    {
        let c = s.get_char(i);
        if is_token_char(c) {
            out.append(backslash);
        }
        out.append(s.substring_char(i, i + 1));
        proof {
            let next = s@.subrange(0, i + 1);
            assert(next.drop_last() =~= s@.subrange(0, i as int));
            assert(next.last() == c);
            assert(s@.subrange(i as int, i + 1) =~= seq![c]);
        }
        assert(out@ =~= escape_markdown(s@.subrange(0, i + 1)));
        i = i + 1;
    }
    assert(s@.subrange(0, n as int) =~= s@);
    out
}

/// Text that can be escaped for markdown.
pub trait Sanitize {
    /// The characters of the text.
    spec fn text(&self) -> Seq<char>;

    /// The text with every markdown token escaped.
    fn sanitize(&self) -> (r: String)
        ensures
            r@ == escape_markdown(self.text()),
    ;
}

impl Sanitize for String {
    open spec fn text(&self) -> Seq<char> {
        self@
    }

    fn sanitize(&self) -> (r: String) {
        escape(self.as_str())
    }
}

impl Sanitize for str {
    open spec fn text(&self) -> Seq<char> {
        self@
    }

    fn sanitize(&self) -> (r: String) {
        escape(self)
    }
}

} // verus!
