//! The canonical header and its detection.
use vstd::prelude::*;
use crate::pattern::{escape_literal, escaped, pattern_accepted, pattern_found, regex_search};

verus! {

/// The header block for comment prefix `p`, copyright `c` and license `l`:
/// a prefix line, the copyright line, a prefix line, the SPDX line, a prefix
/// line and a blank line.
pub open spec fn header_text(p: Seq<char>, c: Seq<char>, l: Seq<char>) -> Seq<char> {
    p + "\n"@ + p + " "@ + c + "\n"@ + p + "\n"@ + p + " SPDX-License-Identifier: "@ + l + "\n"@
        + p + "\n\n"@
}

/// The detection pattern: prefix, prefix, copyright, prefix, prefix, the SPDX
/// tag, license and prefix, each taken literally and each followed by one or
/// more whitespace characters.
pub open spec fn detection_pattern(p: Seq<char>, c: Seq<char>, l: Seq<char>) -> Seq<char> {
    let e = escaped(p);
    let ws = "\\s+"@;
    e + ws + e + ws + escaped(c) + ws + e + ws + e + ws + "SPDX-License-Identifier:"@ + ws
        + escaped(l) + ws + e + ws
}

/// Whether `text` opens with the canonical header.
pub open spec fn starts_with_header(text: Seq<char>, p: Seq<char>, c: Seq<char>, l: Seq<char>) -> bool {
    header_text(p, c, l).is_prefix_of(text)
}

/// Whether `text` counts as already stamped: it opens with the canonical
/// header, or the detection pattern matches somewhere in it.
pub open spec fn is_stamped(text: Seq<char>, p: Seq<char>, c: Seq<char>, l: Seq<char>) -> bool {
    starts_with_header(text, p, c, l) || pattern_found(detection_pattern(p, c, l), text)
}

/// Whether deciding on `text` needs the detection pattern and the pattern is
/// refused by the regex engine.
pub open spec fn detection_fails(text: Seq<char>, p: Seq<char>, c: Seq<char>, l: Seq<char>) -> bool {
    !starts_with_header(text, p, c, l) && !pattern_accepted(detection_pattern(p, c, l))
}

/// Builds the header block that is prepended to an unstamped file.
pub fn build_header(prefix: &str, copyright: &str, license: &str) -> (r: String)
    ensures
        r@ == header_text(prefix@, copyright@, license@),
{
    let mut h = String::from_str(prefix);
    h.append("\n");
    h.append(prefix);
    h.append(" ");
    h.append(copyright);
    h.append("\n");
    h.append(prefix);
    h.append("\n");
    h.append(prefix);
    h.append(" SPDX-License-Identifier: ");
    h.append(license);
    h.append("\n");
    h.append(prefix);
    h.append("\n\n");
    h
}

/// Builds the regex that recognises an existing header.
pub fn build_detection_pattern(prefix: &str, copyright: &str, license: &str) -> (r: String)
    ensures
        r@ == detection_pattern(prefix@, copyright@, license@),
{
    let e = escape_literal(prefix);
    let ec = escape_literal(copyright);
    let el = escape_literal(license);
    let mut r = e.clone();
    r.append("\\s+");
    r.append(e.as_str());
    r.append("\\s+");
    r.append(ec.as_str());
    r.append("\\s+");
    r.append(e.as_str());
    r.append("\\s+");
    r.append(e.as_str());
    r.append("\\s+");
    r.append("SPDX-License-Identifier:");
    r.append("\\s+");
    r.append(el.as_str());
    r.append("\\s+");
    r.append(e.as_str());
    r.append("\\s+");
    r
}

/// Whether `head` is a prefix of `text`.
pub fn starts_with(text: &str, head: &str) -> (r: bool)
    ensures
        r == head@.is_prefix_of(text@),
{
    let n = text.unicode_len();
    let m = head.unicode_len();
    if m > n {
        return false;
    }
    let t = String::from_str(text.substring_char(0, m));
    let h = String::from_str(head);
    let r = t == h;
    proof {
        if r {
            assert forall|i: int| 0 <= i < head@.len() implies head@[i] == text@[i] by {
                assert(t@[i] == text@[i]);
            }
        } else {
            assert(!(head@.is_prefix_of(text@))) by {
                if head@.is_prefix_of(text@) {
                    assert(t@ =~= head@);
                }
            }
        }
    }
    r
}

/// Decides whether `text` already carries the header for `prefix`,
/// `copyright` and `license`. Fails only where the detection pattern is
/// needed and the regex engine refuses it.
pub fn check_stamped(text: &str, prefix: &str, copyright: &str, license: &str) -> (r: Option<bool>)
    ensures
        r is None <==> detection_fails(text@, prefix@, copyright@, license@),
        r matches Some(b) ==> b == is_stamped(text@, prefix@, copyright@, license@),
{
    let header = build_header(prefix, copyright, license);
    if starts_with(text, header.as_str()) {
        return Some(true);
    }
    let pattern = build_detection_pattern(prefix, copyright, license);
    regex_search(pattern.as_str(), text)
}

} // verus!
