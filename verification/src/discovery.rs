use vstd::prelude::*;

verus! {

/// Whether a file name (as bytes) ends in `.php`. Discovery keeps exactly
/// these files; directories are walked, everything else is skipped.
pub open spec fn is_php_name(name: Seq<u8>) -> bool {
    name.len() >= 4 && name.subrange(name.len() - 4, name.len() as int) == seq![
        46u8,
        112u8,
        104u8,
        112u8,
    ]
}

/// Decides whether a discovered entry's file name belongs in the work queue:
/// true exactly for names that end in `.php`.
pub fn is_php_file(name: &[u8]) -> (r: bool)
    ensures
        r == is_php_name(name@),
{
    let n = name.len();
    if n < 4 {
        return false;
    }
    let r = name[n - 4] == 46 && name[n - 3] == 112 && name[n - 2] == 104 && name[n - 1] == 112;
    proof {
        let tail = name@.subrange(n - 4, n as int);
        let ext = seq![46u8, 112u8, 104u8, 112u8];
        if r {
            assert(tail =~= ext);
        } else {
            assert(tail[0] == name@[n - 4]);
            assert(tail[1] == name@[n - 3]);
            assert(tail[2] == name@[n - 2]);
            assert(tail[3] == name@[n - 1]);
        }
    }
    r
}

} // verus!
