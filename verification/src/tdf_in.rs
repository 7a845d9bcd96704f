//! Reading tagged (TDF) values out of packet contents.
//!
//! The `tdf` reader trusts the lengths it decodes: it adds a decoded length
//! to its cursor without checking for overflow. It also skips nested values
//! by recursion, one level of which sits on the stack for each nested group,
//! list, map, union or generic value. The library therefore hands it only
//! contents that satisfy `tdf_reader_bounded`, which `check_reader_bounds`
//! tests: no decoded length can overflow the cursor, and the recursion stays
//! within a fixed depth.
use vstd::prelude::*;

verus! {

/// The most bytes holding a nesting type code (see `is_nesting_type`) that a
/// handed buffer may contain. It bounds the reader's recursion to about
/// twice as many levels, each a few stack frames, which keeps it well
/// within the 2 MiB stack of a runtime worker thread.
pub const MAX_NESTING_BYTES: usize = 1024;

/// The longest run of bytes with the high bit set that a handed buffer may
/// hold: 8 where `usize` has 64 bits, 3 where it has 32.
pub open spec fn max_high_run() -> int {
    if usize::BITS == 64 {
        8
    } else {
        3
    }
}

/// Whether the `length` bytes from `start` on all have the high bit set.
pub open spec fn high_run(buf: Seq<u8>, start: int, length: int) -> bool {
    forall|k: int| start <= k < start + length ==> #[trigger] buf[k] >= 0x80
}

/// Whether `buf` has no run of more than `max_high_run()` bytes with the
/// high bit set.
pub open spec fn no_long_high_run(buf: Seq<u8>) -> bool {
    forall|start: int|
        0 <= start && start + max_high_run() + 1 <= buf.len() ==> !#[trigger] high_run(
            buf,
            start,
            max_high_run() + 1,
        )
}

/// The type codes on which the reader recurses: group (3), list (4), map
/// (5), tagged union (6) and generic (12).
pub open spec fn is_nesting_type(b: u8) -> bool {
    b == 3 || b == 4 || b == 5 || b == 6 || b == 12
}

/// How many bytes of `buf` hold a nesting type code.
pub open spec fn nesting_bytes(buf: Seq<u8>) -> nat
    decreases buf.len(),
{
    if buf.len() == 0 {
        0
    } else {
        nesting_bytes(buf.drop_last()) + if is_nesting_type(buf.last()) {
            1nat
        } else {
            0nat
        }
    }
}

/// Contents that the `tdf` reader may be handed.
///
/// - No run of more than `max_high_run()` bytes has the high bit set. Every
///   variable-length integer the reader decodes ends at the first byte below
///   0x80, so it spans at most `max_high_run() + 1` bytes and is below 2^62
///   (2^27 on 32-bit targets); added to a cursor of at most `isize::MAX` it
///   cannot overflow `usize`. The cursor then only moves forward and every
///   step reads at least one byte, so the reader stops.
/// - At most `MAX_NESTING_BYTES` bytes hold a nesting type code. Each level
///   of the reader's recursion is entered on a type code it has just read,
///   at a later position than that of the level above, so the depth is at
///   most about twice that count.
/// - The buffer fits the address space (`isize::MAX` bytes), as every
///   buffer does.
pub open spec fn tdf_reader_bounded(buf: Seq<u8>) -> bool {
    &&& buf.len() <= isize::MAX
    &&& no_long_high_run(buf)
    &&& nesting_bytes(buf) <= MAX_NESTING_BYTES
}

/// Tests `tdf_reader_bounded` on the contents of a `Bytes`.
pub fn check_reader_bounds(buffer: &bytes::Bytes) -> (r: bool)
    ensures
        r == tdf_reader_bounded(crate::buffer::bytes_view(*buffer)),
{
    let ghost buf = crate::buffer::bytes_view(*buffer);
    let len = crate::buffer::bytes_len(buffer);
    if len > isize::MAX as usize {
        return false;
    }
    let max_run: usize = if usize::BITS == 64 {
        8
    } else {
        3
    };
    let mut run: usize = 0;
    let mut nesting: usize = 0;
    let mut i: usize = 0;
    while i < len
        invariant
            buf == crate::buffer::bytes_view(*buffer),
            len == buf.len(),
            max_run == max_high_run(),
            0 <= i <= len,
            run <= i,
            run <= max_run,
            nesting <= i,
            nesting == nesting_bytes(buf.take(i as int)),
            high_run(buf, i - run, run as int),
            i > run ==> buf[i - run - 1] < 0x80,
            forall|start: int|
                0 <= start && start + max_high_run() + 1 <= i ==> !#[trigger] high_run(
                    buf,
                    start,
                    max_high_run() + 1,
                ),
        decreases len - i,
    {
        let b = crate::buffer::bytes_byte(buffer, i);
        if b >= 0x80 {
            if run == max_run {
                proof {
                    let s = i - run;
                    assert(high_run(buf, s, max_high_run() + 1));
                }
                return false;
            }
            proof {
                assert forall|k: int| i - run <= k < i - run + run + 1 implies #[trigger] buf[k]
                    >= 0x80 by {
                    if k < i {
                        assert(buf[k] >= 0x80);
                    }
                }
            }
            run = run + 1;
        } else {
            run = 0;
        }
        if b == 3 || b == 4 || b == 5 || b == 6 || b == 12 {
            nesting = nesting + 1;
        }
        proof {
            assert(buf.take(i + 1).drop_last() =~= buf.take(i as int));
        }
        i = i + 1;
        assert(high_run(buf, i - run, run as int));
        proof {
            assert forall|start: int|
                0 <= start && start + max_high_run() + 1 <= i implies !#[trigger] high_run(
                buf,
                start,
                max_high_run() + 1,
            ) by {
                if start + max_high_run() + 1 == i {
                    if b < 0x80 {
                        assert(buf[i - 1] < 0x80);
                    } else {
                        let k = i - run - 1;
                        if k >= start {
                            assert(buf[k] < 0x80);
                        } else {
                            assert(run > max_high_run());
                        }
                    }
                }
            }
        }
    }
    assert(buf.take(len as int) =~= buf);
    nesting <= MAX_NESTING_BYTES
}

/// The error the `tdf` reader reports for malformed or missing values.
#[verifier::external_type_specification]
#[verifier::external_body]
pub struct ExDecodeError(tdf::DecodeError);

/// The string that `TdfDeserializer::new(buffer).tag::<String>(tag)` finds:
/// `None` where the reader reports an error.
pub uninterp spec fn tdf_find_string(buffer: Seq<u8>, tag: Seq<char>) -> Option<Seq<char>>;

/// Reads the string field `tag` from the start of `buffer` with a fresh
/// `TdfDeserializer`, as `tag::<String>` does: it skips other fields until
/// the tag. The result is named by `tdf_find_string`; an `Err` is exactly the
/// case where that name gives `None`.
///
/// The reader copies the tag into a four-byte array, which panics on longer
/// tags, adds decoded lengths to its cursor unchecked, and recurses once per
/// nested value; `requires` admits only valid tags and buffers for which
/// `tdf_reader_bounded` rules out the overflow and bounds the recursion.
#[verifier::external_body]
pub(crate) fn read_string_field(buffer: &bytes::Bytes, tag: &str) -> (r: Result<
    String,
    tdf::DecodeError,
>)
    requires
        crate::tdf_out::valid_tag(tag),
        tdf_reader_bounded(crate::buffer::bytes_view(*buffer)),
    ensures
        match r {
            Ok(s) => tdf_find_string(crate::buffer::bytes_view(*buffer), tag@) == Some(s@),
            Err(_) => tdf_find_string(crate::buffer::bytes_view(*buffer), tag@) is None,
        },
{
    tdf::TdfDeserializer::new(buffer).tag::<String>(tag.as_bytes())
}

} // verus!
