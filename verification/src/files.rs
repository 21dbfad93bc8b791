//! Metadata of finished recording files.

use vstd::prelude::*;
use vstd::string::{StringExecFns, StringSliceAdditionalSpecFns};
use crate::error::RecorderError;
use crate::paths;

verus! {

/// Metadata describing one finished recording file.
#[derive(Debug, Clone)]
pub struct RecordingInfo {
    pub file_path: String,
    pub file_name: String,
    pub file_size: u64,
    pub duration: u64,
    pub created_at: String,
}

/// The byte position just past the last path separator in `b`, or 0 when `b`
/// holds none.
pub open spec fn spec_after_last_sep(b: Seq<u8>) -> int
    decreases b.len(),
{
    if b.len() == 0 {
        0
    } else if b.last() == 47u8 || b.last() == 92u8 {
        b.len() as int
    } else {
        spec_after_last_sep(b.drop_last())
    }
}

/// The folder where recordings are saved by default.
pub fn get_default_save_location() -> (r: Result<String, RecorderError>)
    ensures
        r matches Ok(p) ==> paths::spec_ends_with(p@, "\\RecordFlow\\Recordings"@),
        r matches Err(e) ==> e.is_file_error(),
{
    paths::get_default_recordings_path()
}

/// The final component of a path: everything after the last `/` or `\`
/// separator. Since both separators are single-byte characters, the split
/// position always falls on a character boundary for any real path; should
/// the boundary check fail regardless, the empty string is returned.
pub fn file_name_only(path: &str) -> (r: String)
    ensures
        ({
            let b = path.spec_bytes();
            let mid = spec_after_last_sep(b);
            if vstd::utf8::is_char_boundary(b, mid) {
                vstd::utf8::encode_utf8(r@) == b.subrange(mid, b.len() as int)
            } else {
                r@.len() == 0
            }
        }),
{
    let bytes: &[u8] = path.as_bytes();
    let n: usize = bytes.len();
    let mut mid: usize = 0;
    let mut i: usize = 0;
    while i < n
        invariant
            0 <= i <= n,
            n == path.spec_bytes().len(),
            bytes@ == path.spec_bytes(),
            mid as int == spec_after_last_sep(path.spec_bytes().take(i as int)),
            mid <= i,
        decreases n - i,
    {
        let byte: u8 = bytes[i];
        if byte == 47u8 || byte == 92u8 {
            mid = i + 1;
        }
        proof {
            let b = path.spec_bytes();
            assert(b.take(i as int + 1).drop_last() =~= b.take(i as int));
            assert(b.take(i as int + 1).last() == b[i as int]);
        }
        i = i + 1;
    }
    proof {
        assert(path.spec_bytes().take(n as int) =~= path.spec_bytes());
    }
    if path.is_char_boundary(mid) {
        let (_, tail) = path.split_at(mid);
        proof {
            assert(tail.spec_bytes() =~= path.spec_bytes().subrange(
                mid as int,
                path.spec_bytes().len() as int,
            ));
        }
        tail.to_owned()
    } else {
        String::new()
    }
}

} // verus!
