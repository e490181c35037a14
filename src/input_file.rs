//! What an input file must look like before any transaction is read from it.
use vstd::prelude::*;

verus! {

/// `csv` in ASCII: the extension of an input file.
pub open spec fn expected_extension() -> Seq<u8> {
    seq![99u8, 115u8, 118u8]
}

/// Whether a file extension is exactly the expected one.
pub fn is_expected_extension(ext: &[u8]) -> (r: bool)
    ensures
        r == (ext@ == expected_extension()),
{
    let expected: Vec<u8> = vec![99u8, 115u8, 118u8];
    proof {
        assert(expected@ =~= expected_extension());
    }
    if ext.len() != expected.len() {
        return false;
    }
    let mut i: usize = 0;
    while i < ext.len()
        invariant
            expected@ == expected_extension(),
            ext@.len() == expected@.len(),
            0 <= i <= ext@.len(),
            forall|j: int| 0 <= j < i ==> #[trigger] ext@[j] == expected@[j],
        decreases ext@.len() - i,
    {
        if ext[i] != expected[i] {
            assert(ext@[i as int] != expected_extension()[i as int]);
            return false;
        }
        i = i + 1;
    }
    assert(ext@ =~= expected@);
    true
}

} // verus!
