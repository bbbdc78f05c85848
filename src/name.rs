//! Comparator names: byte strings without interior nul, stored with a
//! terminating nul so that the engine can read them as C strings.
use vstd::prelude::*;

verus! {

/// `s` holds no nul byte.
pub open spec fn nul_free(s: Seq<u8>) -> bool {
    forall|i: int| 0 <= i < s.len() ==> s[i] != 0u8
}

/// `s` is a nul-free name followed by exactly one terminating nul.
pub open spec fn is_terminated_name(s: Seq<u8>) -> bool {
    &&& s.len() > 0
    &&& s.last() == 0u8
    &&& nul_free(s.drop_last())
}

/// A name was refused because it holds a nul byte.
#[derive(Clone, Copy, Debug, PartialEq, Eq, Structural)]
pub struct NulError {
    /// Index of the first nul byte in the refused name.
    pub position: usize,
}

/// Index of the first nul byte of `s`, if any.
pub fn first_nul(s: &[u8]) -> (r: Option<usize>)
    ensures
        r is None <==> nul_free(s@),
        r matches Some(p) ==> p < s@.len() && s@[p as int] == 0u8 && nul_free(s@.take(p as int)),
{
    let mut i: usize = 0;
    while i < s.len()
        invariant
            i <= s@.len(),
            nul_free(s@.take(i as int)),
        decreases s@.len() - i,
    {
        if s[i] == 0u8 {
            return Some(i);
        }
        assert(s@.take(i as int + 1) == s@.take(i as int).push(s@[i as int]));
        i = i + 1;
    }
    assert(s@.take(i as int) == s@);
    None
}

/// Copies `name` and appends the terminating nul; refuses a name that holds a
/// nul byte, giving the index of the first one.
pub fn terminated_name(name: &[u8]) -> (r: Result<Vec<u8>, NulError>)
    ensures
        r is Ok <==> nul_free(name@),
        r matches Ok(v) ==> v@ == name@.push(0u8) && is_terminated_name(v@),
        r matches Err(e) ==> e.position < name@.len() && name@[e.position as int] == 0u8
            && nul_free(name@.take(e.position as int)),
{
    match first_nul(name) {
        Some(p) => Err(NulError { position: p }),
        None => {
            let mut v: Vec<u8> = Vec::new();
            let mut i: usize = 0;
            while i < name.len()
                invariant
                    i <= name@.len(),
                    v@ == name@.take(i as int),
                decreases name@.len() - i,
            {
                v.push(name[i]);
                assert(name@.take(i as int + 1) == name@.take(i as int).push(name@[i as int]));
                i = i + 1;
            }
            assert(name@.take(i as int) == name@);
            v.push(0u8);
            assert(v@.drop_last() == name@);
            Ok(v)
        },
    }
}

} // verus!
