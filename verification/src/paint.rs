use crate::model::Track;
use vstd::prelude::*;

verus! {

/// Whether `s` is free of the ANSI escape character.  Terminal styling
/// wraps text in escape sequences; text that carries none of its own is
/// preserved verbatim inside the styled result.
pub open spec fn no_escape(s: Seq<char>) -> bool {
    forall|i: int| 0 <= i < s.len() ==> s[i] != '\u{1b}'
}

/// Whether `needle` occurs contiguously inside `hay`.
pub open spec fn contains_seq(hay: Seq<char>, needle: Seq<char>) -> bool {
    exists|i: int|
        0 <= i <= hay.len() - needle.len() && #[trigger] hay.subrange(i, i + needle.len())
            == needle
}

/// Every sequence contains itself.
pub proof fn lemma_contains_self(s: Seq<char>)
    ensures
        contains_seq(s, s),
{
    assert(s.subrange(0, 0 + s.len() as int) =~= s);
}

/// A sequence containing `needle` still contains it after appending.
pub proof fn lemma_contains_concat_left(a: Seq<char>, b: Seq<char>, needle: Seq<char>)
    requires
        contains_seq(a, needle),
    ensures
        contains_seq(a + b, needle),
{
    let i = choose|i: int|
        0 <= i <= a.len() - needle.len() && #[trigger] a.subrange(i, i + needle.len()) == needle;
    assert((a + b).subrange(i, i + needle.len() as int) =~= a.subrange(
        i,
        i + needle.len() as int,
    ));
}

/// A sequence containing `needle` still contains it after prepending.
pub proof fn lemma_contains_concat_right(a: Seq<char>, b: Seq<char>, needle: Seq<char>)
    requires
        contains_seq(b, needle),
    ensures
        contains_seq(a + b, needle),
{
    let i = choose|i: int|
        0 <= i <= b.len() - needle.len() && #[trigger] b.subrange(i, i + needle.len()) == needle;
    assert((a + b).subrange(a.len() + i, a.len() + i + needle.len() as int) =~= b.subrange(
        i,
        i + needle.len() as int,
    ));
}

/// Relies on colored's `Colorize::black` and the `ColoredString` display:
/// the result is the input wrapped in (possibly empty) style and reset
/// escape sequences, so an input free of escape characters appears in it
/// verbatim and contiguously.  Whether styling is applied depends on the
/// environment, so no more is promised.
#[verifier::external_body]
fn paint_black(s: &str) -> (r: String)
    ensures
        no_escape(s@) ==> contains_seq(r@, s@),
{
    colored::Colorize::black(s).to_string()
}

/// Relies on colored's `Colorize::yellow`; see [`paint_black`].
#[verifier::external_body]
fn paint_yellow(s: &str) -> (r: String)
    ensures
        no_escape(s@) ==> contains_seq(r@, s@),
{
    colored::Colorize::yellow(s).to_string()
}

/// Relies on colored's `Colorize::cyan`; see [`paint_black`].
#[verifier::external_body]
fn paint_cyan(s: &str) -> (r: String)
    ensures
        no_escape(s@) ==> contains_seq(r@, s@),
{
    colored::Colorize::cyan(s).to_string()
}

/// Joins the (possibly styled) pieces of a track's listing line in the
/// exact layout the player prints:
/// `<bvid label> <bvid>, <cid label> <cid>, <title label> <title>,
/// <owner label> <owner>`.
pub fn format_track_line(
    bvid_label: &str,
    bvid: &str,
    cid_label: &str,
    cid: &str,
    title_label: &str,
    title: &str,
    owner_label: &str,
    owner: &str,
) -> (r: String)
    ensures
        r@ == bvid_label@ + " "@ + bvid@ + ", "@ + cid_label@ + " "@ + cid@ + ", "@ + title_label@
            + " "@ + title@ + ", "@ + owner_label@ + " "@ + owner@,
{
    let mut s = String::from_str(bvid_label);
    s.append(" ");
    s.append(bvid);
    s.append(", ");
    s.append(cid_label);
    s.append(" ");
    s.append(cid);
    s.append(", ");
    s.append(title_label);
    s.append(" ");
    s.append(title);
    s.append(", ");
    s.append(owner_label);
    s.append(" ");
    s.append(owner);
    s
}

impl Track {
    /// The track's listing line, with the field labels and some values
    /// styled for the terminal.  Styling depends on the environment, so
    /// the contract promises presence, not layout: the identifiers and
    /// names are in the line (the styled ones whenever they carry no
    /// escape character of their own).
    pub fn to_println_string(&self) -> (r: String)
        ensures
            contains_seq(r@, self.cid@),
            contains_seq(r@, self.owner@),
            no_escape(self.bvid@) ==> contains_seq(r@, self.bvid@),
            no_escape(self.title@) ==> contains_seq(r@, self.title@),
    {
        let b1 = paint_black("bvid:");
        let pb = paint_yellow(self.bvid.as_str());
        let b2 = paint_black("cid:");
        let b3 = paint_black("title:");
        let pt = paint_cyan(self.title.as_str());
        let b4 = paint_black("owner:");
        let r = format_track_line(
            b1.as_str(),
            pb.as_str(),
            b2.as_str(),
            self.cid.as_str(),
            b3.as_str(),
            pt.as_str(),
            b4.as_str(),
            self.owner.as_str(),
        );
        proof {
            let pre1 = b1@ + " "@;
            let pre2 = pre1 + pb@;
            let pre3 = pre2 + ", "@;
            let pre4 = pre3 + b2@;
            let pre5 = pre4 + " "@;
            let pre6 = pre5 + self.cid@;
            let pre7 = pre6 + ", "@;
            let pre8 = pre7 + b3@;
            let pre9 = pre8 + " "@;
            let pre10 = pre9 + pt@;
            let pre11 = pre10 + ", "@;
            let pre12 = pre11 + b4@;
            let pre13 = pre12 + " "@;
            let pre14 = pre13 + self.owner@;
            assert(r@ == pre14);
            // the owner sits at the very end
            lemma_contains_self(self.owner@);
            lemma_contains_concat_right(pre13, self.owner@, self.owner@);
            // the cid is inside the prefix pre6, which every later append keeps
            lemma_contains_self(self.cid@);
            lemma_contains_concat_right(pre5, self.cid@, self.cid@);
            lemma_contains_concat_left(pre6, ", "@, self.cid@);
            lemma_contains_concat_left(pre7, b3@, self.cid@);
            lemma_contains_concat_left(pre8, " "@, self.cid@);
            lemma_contains_concat_left(pre9, pt@, self.cid@);
            lemma_contains_concat_left(pre10, ", "@, self.cid@);
            lemma_contains_concat_left(pre11, b4@, self.cid@);
            lemma_contains_concat_left(pre12, " "@, self.cid@);
            lemma_contains_concat_left(pre13, self.owner@, self.cid@);
            // the styled bvid keeps an escape-free bvid visible
            if no_escape(self.bvid@) {
                lemma_contains_concat_right(pre1, pb@, self.bvid@);
                lemma_contains_concat_left(pre2, ", "@, self.bvid@);
                lemma_contains_concat_left(pre3, b2@, self.bvid@);
                lemma_contains_concat_left(pre4, " "@, self.bvid@);
                lemma_contains_concat_left(pre5, self.cid@, self.bvid@);
                lemma_contains_concat_left(pre6, ", "@, self.bvid@);
                lemma_contains_concat_left(pre7, b3@, self.bvid@);
                lemma_contains_concat_left(pre8, " "@, self.bvid@);
                lemma_contains_concat_left(pre9, pt@, self.bvid@);
                lemma_contains_concat_left(pre10, ", "@, self.bvid@);
                lemma_contains_concat_left(pre11, b4@, self.bvid@);
                lemma_contains_concat_left(pre12, " "@, self.bvid@);
                lemma_contains_concat_left(pre13, self.owner@, self.bvid@);
            }
            // likewise for the styled title
            if no_escape(self.title@) {
                lemma_contains_concat_right(pre9, pt@, self.title@);
                lemma_contains_concat_left(pre10, ", "@, self.title@);
                lemma_contains_concat_left(pre11, b4@, self.title@);
                lemma_contains_concat_left(pre12, " "@, self.title@);
                lemma_contains_concat_left(pre13, self.owner@, self.title@);
            }
        }
        r
    }
}

} // verus!
