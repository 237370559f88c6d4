//! Grouping plots by device. Reads on one physical device are serialized,
//! so every plot path is mapped to a device key; the key here is what the
//! path alone shows — its directory — since plots of one directory lie on
//! one device. Callers that can ask the operating system may group by the
//! reported device number instead; this key is the I/O-free default.

use vstd::prelude::*;
use vstd::string::StrSliceExecFns;
use vstd::string::StringExecFns;

verus! {

/// Largest index at which `sep` occurs in `s`, or `-1` if it does not
/// occur.
pub open spec fn find_last(s: Seq<char>, sep: char) -> int
    decreases s.len(),
{
    if s.len() == 0 {
        -1
    } else if s.last() == sep {
        s.len() - 1
    } else {
        find_last(s.drop_last(), sep)
    }
}

/// The device key of a path: its directory component — `/` for entries of
/// the root, `.` for a bare filename. Never empty.
pub open spec fn spec_device_key(s: Seq<char>) -> Seq<char> {
    let i = find_last(s, '/');
    if i < 0 {
        "."@
    } else if i == 0 {
        "/"@
    } else {
        s.take(i)
    }
}

/// The key under which a plot path's device is grouped: paths in one
/// directory count as one device. This is the directory component of the
/// path, `.` when the path is a bare filename.
pub fn get_device_id(path: &str) -> (r: String)
    ensures
        r@ == spec_device_key(path@),
        r@.len() >= 1,
{
    proof {
        reveal_strlit(".");
        reveal_strlit("/");
    }
    let n: usize = path.unicode_len();
    proof {
        assert(path@.take(n as int) =~= path@);
    }
    let mut i: usize = n;
    while i > 0
        invariant
            0 <= i <= n,
            n == path@.len(),
            find_last(path@, '/') == find_last(path@.take(i as int), '/'),
        decreases i,
    {
        proof {
            assert(path@.take(i as int).drop_last() =~= path@.take(i - 1));
            assert(path@.take(i as int).last() == path@[i - 1]);
        }
        if path.get_char(i - 1) == '/' {
            if i - 1 == 0 {
                let root = String::from_str("/");
                proof {
                    reveal_strlit("/");
                    assert(root@.len() == 1);
                }
                return root;
            }
            let dir = path.substring_char(0, i - 1);
            let r = String::from_str(dir);
            assert(r@ =~= spec_device_key(path@));
            assert(r@.len() >= 1);
            return r;
        }
        i = i - 1;
    }
    proof {
        assert(path@.take(0int) =~= Seq::<char>::empty());
        assert(find_last(Seq::<char>::empty(), '/') == -1);
    }
    let r = String::from_str(".");
    assert(r@.len() >= 1);
    r
}

} // verus!
