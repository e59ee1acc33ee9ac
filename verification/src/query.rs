//! The append-only builder for the search-map blob.
//!
//! The blob is ASCII text that tells a client which ids a batch produced
//! and how to refresh them: a header line `600000,<blob id>,<preview id>,
//! <group refresh id>`, then one line per post with the post's metadata,
//! its sample-image id and that image's individual refresh id. Fields are
//! comma-joined with no trailing separator; lines are newline-joined with
//! no trailing newline. The two numeric literals are the batch and image
//! time-to-live in the client's milliseconds, mirrored so clients can
//! schedule their own keepalive pulses.
//!
//! The builder never reorders, deduplicates or regenerates its input: the
//! frozen string of [`QueryBuilder::into_query`] is exactly the
//! concatenation its contract describes.

use vstd::prelude::*;

use crate::api::Post;
use crate::BATCH_TTL;
use crate::IMAGE_TTL;
use vstd::string::StrSliceExecFns;
use vstd::string::StringExecFns;

verus! {

/// A frozen search-map blob, shared by reference and never mutated.
pub type Query = String;

/// The character for one decimal digit value.
pub open spec fn digit_char(d: nat) -> char {
    if d == 0 {
        '0'
    } else if d == 1 {
        '1'
    } else if d == 2 {
        '2'
    } else if d == 3 {
        '3'
    } else if d == 4 {
        '4'
    } else if d == 5 {
        '5'
    } else if d == 6 {
        '6'
    } else if d == 7 {
        '7'
    } else if d == 8 {
        '8'
    } else {
        '9'
    }
}

/// The usual decimal rendering of a non-negative integer: no sign, no
/// leading zeroes except for the number zero itself.
pub open spec fn dec_digits(n: nat) -> Seq<char>
    decreases n,
{
    if n < 10 {
        seq![digit_char(n)]
    } else {
        dec_digits(n / 10).push(digit_char(n % 10))
    }
}

/// The decimal rendering of a signed integer: a leading minus sign for
/// negative values, then the digits of the magnitude.
pub open spec fn int_digits(n: int) -> Seq<char> {
    if n < 0 {
        seq!['-'] + dec_digits((-n) as nat)
    } else {
        dec_digits(n as nat)
    }
}

/// A decimal rendering is never empty and never ends in a newline, so an
/// element pushed after one always gets its comma.
pub proof fn lemma_dec_digits_shape(n: nat)
    ensures
        dec_digits(n).len() >= 1,
        dec_digits(n).last() != '\n',
    decreases n,
{
    if n >= 10 {
        lemma_dec_digits_shape(n / 10);
    }
}

/// The separator [`QueryBuilder::push_element`] writes before an element:
/// nothing at the start of the blob or right after a newline, a comma
/// otherwise.
pub open spec fn sep_for(buf: Seq<char>) -> Seq<char> {
    if buf.len() == 0 || buf.last() == '\n' {
        Seq::empty()
    } else {
        seq![',']
    }
}

/// The header line of a blob: the batch time-to-live in milliseconds, then
/// the blob id, the preview id and the group refresh id.
pub open spec fn header_line(reget: usize, previews: usize, refresh: usize) -> Seq<char> {
    dec_digits((BATCH_TTL * 1000) as nat) + seq![','] + dec_digits(reget as nat) + seq![',']
        + dec_digits(previews as nat) + seq![','] + dec_digits(refresh as nat)
}

/// One post line of a blob: a newline, then the sample-image id, the
/// post's metadata, the image's individual refresh id and the image
/// time-to-live in milliseconds.
pub open spec fn post_line(p: Post, image_id: usize, refresh_id: usize) -> Seq<char> {
    seq!['\n'] + dec_digits(image_id as nat) + seq![','] + dec_digits(p.id as nat) + seq![',']
        + int_digits(p.sample.width as int) + seq![','] + int_digits(p.sample.height as int)
        + seq![','] + int_digits(p.preview.width as int) + seq![','] + int_digits(
        p.preview.height as int,
    ) + seq![','] + int_digits(p.score.up as int) + seq![','] + int_digits(p.score.down as int)
        + seq![','] + p.rating@ + seq![','] + p.file.ext@ + seq![','] + dec_digits(
        refresh_id as nat,
    ) + seq![','] + dec_digits((IMAGE_TTL * 1000) as nat)
}

/// Append the decimal digits of `n` to `s`.
fn push_u64_digits(s: &mut String, n: u64)
    ensures
        final(s)@ == old(s)@ + dec_digits(n as nat),
    decreases n,
{
    if n >= 10 {
        push_u64_digits(s, n / 10);
    }
    push_digit(s, n % 10);
}

/// Append the one digit character for `d`.
fn push_digit(s: &mut String, d: u64)
    requires
        d < 10,
    ensures
        final(s)@ == old(s)@ + seq![digit_char(d as nat)],
{
    let lit: &str = if d == 0 {
        "0"
    } else if d == 1 {
        "1"
    } else if d == 2 {
        "2"
    } else if d == 3 {
        "3"
    } else if d == 4 {
        "4"
    } else if d == 5 {
        "5"
    } else if d == 6 {
        "6"
    } else if d == 7 {
        "7"
    } else if d == 8 {
        "8"
    } else {
        "9"
    };
    proof {
        reveal_strlit("0");
        reveal_strlit("1");
        reveal_strlit("2");
        reveal_strlit("3");
        reveal_strlit("4");
        reveal_strlit("5");
        reveal_strlit("6");
        reveal_strlit("7");
        reveal_strlit("8");
        reveal_strlit("9");
        assert(lit@ =~= seq![digit_char(d as nat)]);
    }
    s.append(lit);
}

/// The decimal rendering of `n` as an owned string.
pub fn u64_string(n: u64) -> (r: String)
    ensures
        r@ == dec_digits(n as nat),
{
    let mut s = String::new();
    push_u64_digits(&mut s, n);
    proof {
        assert(s@ =~= dec_digits(n as nat));
    }
    s
}

/// The decimal rendering of `n`, with a minus sign if negative, as an
/// owned string.
pub fn i64_string(n: i64) -> (r: String)
    ensures
        r@ == int_digits(n as int),
{
    let mut s = String::new();
    if n < 0 {
        proof {
            reveal_strlit("-");
            assert("-"@ =~= seq!['-']);
        }
        s.append("-");
        let mag: u64 = if n == i64::MIN {
            9223372036854775808u64
        } else {
            (-n) as u64
        };
        assert(mag as nat == (-(n as int)) as nat);
        push_u64_digits(&mut s, mag);
    } else {
        push_u64_digits(&mut s, n as u64);
    }
    proof {
        assert(s@ =~= int_digits(n as int));
    }
    s
}

/// The append-only builder for a search-map blob.
///
/// Its view is the text accumulated so far. The builder is write-only:
/// elements and newlines go in, and [`QueryBuilder::into_query`] freezes
/// the final string.
pub struct QueryBuilder(String);

impl View for QueryBuilder {
    type V = Seq<char>;

    closed spec fn view(&self) -> Seq<char> {
        self.0@
    }
}

impl QueryBuilder {
    /// An empty builder.
    pub fn new() -> (r: Self)
        ensures
            r@ =~= Seq::<char>::empty(),
    {
        QueryBuilder(String::new())
    }

    /// Freeze the accumulated text. The builder is consumed: a blob is
    /// generated once and never regenerated in place.
    pub fn into_query(self) -> (r: Query)
        ensures
            r@ == self@,
    {
        self.0
    }

    /// Append one element, preceded by a comma unless the blob is empty or
    /// a line was just begun.
    pub fn push_element(&mut self, element: &str)
        ensures
            final(self)@ == old(self)@ + sep_for(old(self)@) + element@,
    {
        let n = self.0.as_str().unicode_len();
        if n > 0 {
            let c = self.0.as_str().get_char(n - 1);
            if c != '\n' {
                proof {
                    reveal_strlit(",");
                    assert(","@ =~= seq![',']);
                }
                self.0.append(",");
            }
        }
        self.0.append(element);
        proof {
            assert(self@ =~= old(self)@ + sep_for(old(self)@) + element@);
        }
    }

    /// Begin a new line.
    pub fn push_newline(&mut self)
        ensures
            final(self)@ == old(self)@ + seq!['\n'],
    {
        proof {
            reveal_strlit("\n");
            assert("\n"@ =~= seq!['\n']);
        }
        self.0.append("\n");
    }

    /// Append the header line: the batch time-to-live in milliseconds,
    /// the blob id, the preview id and the group refresh id.
    pub fn push_header(&mut self, reget: usize, previews: usize, refresh: usize)
        ensures
            final(self)@ == old(self)@ + sep_for(old(self)@) + header_line(
                reget,
                previews,
                refresh,
            ),
    {
        proof {
            lemma_dec_digits_shape((BATCH_TTL * 1000) as nat);
            lemma_dec_digits_shape(reget as nat);
            lemma_dec_digits_shape(previews as nat);
        }
        self.push_element(u64_string(BATCH_TTL * 1000).as_str());
        self.push_element(u64_string(reget as u64).as_str());
        self.push_element(u64_string(previews as u64).as_str());
        self.push_element(u64_string(refresh as u64).as_str());
        proof {
            assert(self@ =~= old(self)@ + sep_for(old(self)@) + header_line(
                reget,
                previews,
                refresh,
            ));
        }
    }

    /// Append one post line: a newline, then the post's metadata framed by
    /// the batch's ids for it, as [`post_line`] lays it out.
    ///
    /// Every separator of a post line is unconditional — the line starts
    /// with its newline and every following field gets its comma — so the
    /// line is assembled on its own and appended whole.
    pub fn push_post(&mut self, post: &Post, ids: (usize, usize))
        ensures
            final(self)@ == old(self)@ + post_line(*post, ids.0, ids.1),
    {
        let mut line = String::new();
        proof {
            reveal_strlit("\n");
            reveal_strlit(",");
            assert("\n"@ =~= seq!['\n']);
            assert(","@ =~= seq![',']);
        }
        line.append("\n");
        proof {
            assert(line@ =~= seq!['\n']);
        }
        line.append(u64_string(ids.0 as u64).as_str());
        line.append(",");
        line.append(u64_string(post.id).as_str());
        line.append(",");
        line.append(i64_string(post.sample.width).as_str());
        line.append(",");
        line.append(i64_string(post.sample.height).as_str());
        line.append(",");
        line.append(i64_string(post.preview.width).as_str());
        line.append(",");
        line.append(i64_string(post.preview.height).as_str());
        line.append(",");
        line.append(i64_string(post.score.up).as_str());
        line.append(",");
        line.append(i64_string(post.score.down).as_str());
        line.append(",");
        line.append(post.rating.as_str());
        line.append(",");
        line.append(post.file.ext.as_str());
        line.append(",");
        line.append(u64_string(ids.1 as u64).as_str());
        line.append(",");
        line.append(u64_string(IMAGE_TTL * 1000).as_str());
        self.0.append(line.as_str());
    }
}

} // verus!
