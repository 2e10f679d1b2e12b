//! Long-term storage of job logs: the archiver contract and the local
//! filesystem layout.
//!
//! As jobs run, their log output collects in files; once complete, the
//! logs move to long-term storage so the server holding them can stay
//! stateless.  The local variant spreads files over nested directories
//! derived from a checksum of the job identifier, to bound directory
//! fan-out.  The path derivation and the reading of a retrieved log into
//! lines are verified here; the copying, reading and writing of the files
//! themselves are left to the platform layer implementing [`LogArchiver`].

use vstd::prelude::*;

use vstd::utf8::decode_utf8;
use vstd::utf8::encode_utf8;
use vstd::utf8::encode_utf8_decode_utf8;
use vstd::utf8::encode_utf8_valid_utf8;
use vstd::utf8::is_ascii_chars;
use vstd::utf8::is_ascii_chars_encode_utf8;
use vstd::utf8::valid_utf8;

use crate::codec::string_from_utf8;
use crate::error::Error;

verus! {

/// Contract for storage and retrieval of job logs from long-term storage.
pub trait LogArchiver {
    /// Places the log collected at `file_path` in the archive under
    /// `job_id`.
    fn archive(&self, job_id: u64, file_path: &String) -> Result<(), Error>;

    /// Retrieves the log lines stored for `job_id`.
    fn retrieve(&self, job_id: u64) -> Result<Vec<String>, Error>;
}

/// Name for what the SHA-256 digest of a byte block is: a function of the
/// bytes alone.
pub uninterp spec fn sha256_of(bytes: Seq<u8>) -> Seq<u8>;

/// Relies on sha2's `Sha256` hasher: the digest is 32 bytes and depends
/// on the input bytes alone.
#[verifier::external_body]
fn sha256(bytes: &[u8]) -> (r: Vec<u8>)
    ensures
        r@ == sha256_of(bytes@),
        r@.len() == 32,
{
    let out = <sha2::Sha256 as sha2::Digest>::digest(bytes);
    AsRef::<[u8]>::as_ref(&out).to_vec()
}

/// The decimal digits of `n`, as ASCII bytes, most significant first.
pub open spec fn decimal_bytes(n: nat) -> Seq<u8>
    decreases n,
{
    if n < 10 {
        seq![(48 + n) as u8]
    } else {
        decimal_bytes(n / 10) + seq![(48 + (n % 10)) as u8]
    }
}

/// Decimal digits are the ASCII bytes of `0` through `9`.
proof fn lemma_decimal_bytes_ascii(n: nat)
    ensures
        forall|i: int|
            0 <= i < decimal_bytes(n).len() ==> 48 <= #[trigger] decimal_bytes(n)[i] <= 57,
    decreases n,
{
    if n >= 10 {
        lemma_decimal_bytes_ascii(n / 10);
        assert forall|i: int|
            0 <= i < decimal_bytes(n).len() implies 48 <= #[trigger] decimal_bytes(n)[i]
            <= 57 by {
            if i < decimal_bytes(n / 10).len() {
                assert(decimal_bytes(n)[i] == decimal_bytes(n / 10)[i]);
            } else {
                assert(decimal_bytes(n)[i] == (48 + (n % 10)) as u8);
            }
        }
    }
}

/// Appends the decimal digits of `n`.
fn push_decimal(n: u64, out: &mut Vec<u8>)
    ensures
        final(out)@ == old(out)@ + decimal_bytes(n as nat),
    decreases n,
{
    if n < 10 {
        out.push(48 + (n as u8));
        proof {
            assert(final(out)@ =~= old(out)@ + decimal_bytes(n as nat));
        }
    } else {
        push_decimal(n / 10, out);
        out.push(48 + ((n % 10) as u8));
        proof {
            assert(final(out)@ =~= old(out)@ + decimal_bytes(n as nat));
        }
    }
}

/// The ASCII byte of one hexadecimal digit, lowercase.
pub open spec fn hex_digit(v: u8) -> u8
    recommends
        v < 16,
{
    if v < 10 {
        (48 + v) as u8
    } else {
        (87 + v) as u8
    }
}

/// Two lowercase hexadecimal digits for a byte, zero-padded.
pub open spec fn hex_pair(b: u8) -> Seq<u8> {
    seq![hex_digit(b / 16), hex_digit(b % 16)]
}

/// Appends the two hexadecimal digits of `b`.
fn push_hex_pair(b: u8, out: &mut Vec<u8>)
    ensures
        final(out)@ == old(out)@ + hex_pair(b),
{
    let hi = b / 16;
    let lo = b % 16;
    out.push(
        if hi < 10 {
            48 + hi
        } else {
            87 + hi
        },
    );
    out.push(
        if lo < 10 {
            48 + lo
        } else {
            87 + lo
        },
    );
    proof {
        assert(final(out)@ =~= old(out)@ + hex_pair(b));
    }
}

/// The characters with the same code points as a block of ASCII bytes.
pub open spec fn ascii_chars(bytes: Seq<u8>) -> Seq<char> {
    bytes.map_values(|b: u8| b as char)
}

/// ASCII bytes are valid UTF-8 and decode to the characters with the same
/// code points.
proof fn lemma_ascii_bytes_utf8(bytes: Seq<u8>)
    requires
        forall|i: int| 0 <= i < bytes.len() ==> #[trigger] bytes[i] < 128,
    ensures
        valid_utf8(bytes),
        decode_utf8(bytes) == ascii_chars(bytes),
{
    let chars = ascii_chars(bytes);
    assert forall|i: int| 0 <= i < chars.len() implies '\0' <= #[trigger] chars[i]
        <= '\u{7f}' by {
        assert(chars[i] == bytes[i] as char);
    }
    assert(is_ascii_chars(chars));
    is_ascii_chars_encode_utf8(chars);
    assert forall|i: int| 0 <= i < chars.len() implies chars[i] as u8 == bytes[i] by {
        assert(chars[i] == bytes[i] as char);
    }
    assert(encode_utf8(chars) =~= bytes);
    encode_utf8_valid_utf8(chars);
    encode_utf8_decode_utf8(chars);
}

/// Builds the string holding a block of ASCII bytes.
fn string_from_ascii(bytes: Vec<u8>) -> (s: String)
    requires
        forall|i: int| 0 <= i < bytes@.len() ==> #[trigger] bytes@[i] < 128,
    ensures
        s@ == ascii_chars(bytes@),
{
    proof {
        lemma_ascii_bytes_utf8(bytes@);
    }
    match string_from_utf8(bytes) {
        Result::Ok(s) => s,
        Result::Err(_) => {
            proof {
                assert(false);
            }
            String::new()
        },
    }
}

/// The path suffix under the archive root for a job: four directory
/// levels from the first four bytes of the SHA-256 checksum of the
/// decimal job identifier, then the decimal identifier with a `.log`
/// extension.
pub open spec fn archive_suffix_bytes(job_id: u64) -> Seq<u8> {
    let digits = decimal_bytes(job_id as nat);
    let sum = sha256_of(digits);
    seq![47u8] + hex_pair(sum[0]) + seq![47u8] + hex_pair(sum[1]) + seq![47u8] + hex_pair(sum[2])
        + seq![47u8] + hex_pair(sum[3]) + seq![47u8] + digits + seq![46u8, 108u8, 111u8, 103u8]
}

/// Local archiver variant, which stores job logs under the root directory
/// it holds.  The caller is responsible for backing that filesystem up.
pub struct LocalArchiver(pub String);

impl LocalArchiver {
    /// The path a given job's log is stored at: the root, four nested
    /// directories named by the hexadecimal form of the first four
    /// checksum bytes of the job identifier, and the identifier itself as
    /// the file name — so files spread instead of crowding one directory.
    pub fn archive_path(&self, job_id: u64) -> (p: String)
        ensures
            p@ == self.0@ + ascii_chars(archive_suffix_bytes(job_id)),
    {
        let mut digits: Vec<u8> = Vec::new();
        push_decimal(job_id, &mut digits);
        let checksum = sha256(digits.as_slice());
        let mut suffix: Vec<u8> = Vec::new();
        suffix.push(47);
        push_hex_pair(checksum[0], &mut suffix);
        suffix.push(47);
        push_hex_pair(checksum[1], &mut suffix);
        suffix.push(47);
        push_hex_pair(checksum[2], &mut suffix);
        suffix.push(47);
        push_hex_pair(checksum[3], &mut suffix);
        suffix.push(47);
        suffix.extend_from_slice(digits.as_slice());
        suffix.push(46);
        suffix.push(108);
        suffix.push(111);
        suffix.push(103);
        proof {
            assert(suffix@ =~= archive_suffix_bytes(job_id));
            lemma_decimal_bytes_ascii(job_id as nat);
            assert forall|i: int| 0 <= i < suffix@.len() implies #[trigger] suffix@[i] < 128 by {}
        }
        let suffix_string = string_from_ascii(suffix);
        let mut p = self.0.clone();
        p.append(suffix_string.as_str());
        p
    }
}

/// The pieces of a byte block split at every newline byte: always one
/// piece more than there are newlines, in order, with the newlines
/// themselves dropped.
pub open spec fn raw_split(s: Seq<u8>) -> Seq<Seq<u8>>
    decreases s.len(),
{
    if s.len() == 0 {
        seq![Seq::<u8>::empty()]
    } else if s.last() == 10 {
        raw_split(s.drop_last()) + seq![Seq::<u8>::empty()]
    } else {
        let r = raw_split(s.drop_last());
        r.update(r.len() - 1, r.last().push(s.last()))
    }
}

/// A trailing carriage return stripped, as line endings may be `\r\n`.
pub open spec fn chomp(l: Seq<u8>) -> Seq<u8> {
    if l.len() > 0 && l.last() == 13 {
        l.drop_last()
    } else {
        l
    }
}

/// The lines of a byte block, following the usual text conventions: split
/// at newlines, a carriage return directly before a newline dropped, and
/// an optional final line ending producing no extra line.
pub open spec fn lines_spec(s: Seq<u8>) -> Seq<Seq<u8>> {
    let r = raw_split(s);
    let main = Seq::new((r.len() - 1) as nat, |j: int| chomp(r[j]));
    if r.last().len() == 0 {
        main
    } else {
        main + seq![r.last()]
    }
}

/// Splits a retrieved log into its lines.
pub fn split_lines(bytes: &[u8]) -> (lines: Vec<Vec<u8>>)
    ensures
        lines.deep_view() == lines_spec(bytes@),
{
    let mut out: Vec<Vec<u8>> = Vec::new();
    let mut cur: Vec<u8> = Vec::new();
    let mut i: usize = 0;
    proof {
        assert(bytes@.take(0) =~= Seq::<u8>::empty());
    }
    while i < bytes.len()
        invariant
            i <= bytes@.len(),
            raw_split(bytes@.take(i as int)).len() == out@.len() + 1,
            forall|j: int|
                0 <= j < out@.len() ==> #[trigger] out@[j]@ == chomp(
                    raw_split(bytes@.take(i as int))[j],
                ),
            cur@ == raw_split(bytes@.take(i as int)).last(),
        decreases bytes@.len() - i,
    {
        let b = bytes[i];
        proof {
            assert(bytes@.take(i + 1).drop_last() =~= bytes@.take(i as int));
            assert(bytes@.take(i + 1).last() == b);
        }
        if b == 10 {
            let mut finished = cur;
            cur = Vec::new();
            if finished.len() > 0 && finished[finished.len() - 1] == 13 {
                finished.pop();
            }
            proof {
                assert(finished@ == chomp(raw_split(bytes@.take(i as int)).last()));
            }
            out.push(finished);
        } else {
            cur.push(b);
        }
        i += 1;
    }
    proof {
        assert(bytes@.take(i as int) =~= bytes@);
    }
    if cur.len() > 0 {
        out.push(cur);
    }
    proof {
        assert(out.deep_view() =~~= lines_spec(bytes@));
    }
    out
}

} // verus!
