use vstd::prelude::*;

verus! {

/// Whether `data` ends in well-formed PKCS#7 padding for a 16-byte block
/// size: the last byte `n` satisfies `1 <= n <= 16` and the last `n`
/// bytes all equal `n`.
pub open spec fn pkcs7_valid(data: Seq<u8>) -> bool {
    &&& data.len() > 0
    &&& 1 <= data.last() <= 16
    &&& data.last() <= data.len()
    &&& forall|i: int|
        data.len() - data.last() <= i < data.len() ==> data[i] == data.last()
}

/// The bytes of `data` with its PKCS#7 padding stripped.
pub open spec fn pkcs7_unpad_spec(data: Seq<u8>) -> Seq<u8>
    recommends
        pkcs7_valid(data),
{
    data.take(data.len() - data.last() as int)
}

/// `data` extended with PKCS#7 padding for a 16-byte block size: `n`
/// copies of the byte `n`, where `n` is the distance to the next multiple
/// of 16 (16 itself when `data` is already aligned).
pub open spec fn pkcs7_pad_spec(data: Seq<u8>) -> Seq<u8> {
    let n = 16 - data.len() % 16;
    data + Seq::new(n as nat, |i: int| n as u8)
}

/// Padding then unpadding restores the data exactly, and the padded form
/// is a nonzero multiple of the block size. This is the unpadding half of
/// the encrypt/decrypt round trip: whatever a compatible encryptor pads,
/// this pipeline strips back off.
pub proof fn lemma_pkcs7_round_trip(data: Seq<u8>)
    ensures
        pkcs7_pad_spec(data).len() == data.len() + 16 - data.len() % 16,
        pkcs7_pad_spec(data).len() % 16 == 0,
        pkcs7_pad_spec(data).len() > 0,
        pkcs7_valid(pkcs7_pad_spec(data)),
        pkcs7_unpad_spec(pkcs7_pad_spec(data)) == data,
{
    let n = 16 - data.len() % 16;
    let padded = pkcs7_pad_spec(data);
    assert(0 <= data.len() % 16 < 16) by (nonlinear_arith);
    assert(padded.len() == data.len() + n);
    assert((data.len() + n) % 16 == 0) by (nonlinear_arith)
        requires
            n == 16 - data.len() % 16,
    ;
    assert(padded.last() == n as u8);
    assert(forall|i: int|
        padded.len() - n <= i < padded.len() ==> padded[i] == n as u8);
    assert(pkcs7_unpad_spec(padded) =~= data);
}

/// Strips PKCS#7 padding from `data`, returning `None` exactly when the
/// padding is malformed (empty input, a last byte outside `1..=16` or
/// longer than the input, or trailing bytes that do not all equal it).
pub fn pkcs7_unpad(data: &Vec<u8>) -> (r: Option<Vec<u8>>)
    ensures
        match r {
            Some(v) => pkcs7_valid(data@) && v@ == pkcs7_unpad_spec(data@),
            None => !pkcs7_valid(data@),
        },
{
    let len: usize = data.len();
    if len == 0 {
        return None;
    }
    let n: u8 = data[len - 1];
    if n == 0 || n > 16 {
        return None;
    }
    let pad: usize = n as usize;
    if pad > len {
        return None;
    }
    let mut i: usize = len - pad;
    while i < len
        invariant
            data@.len() == len,
            len > 0,
            n == data@.last(),
            pad == n as usize,
            1 <= pad <= 16,
            pad <= len,
            len - pad <= i <= len,
            forall|j: int| len - pad <= j < i ==> data@[j] == n,
        decreases len - i,
    {
        if data[i] != n {
            return None;
        }
        i += 1;
    }
    let keep: usize = len - pad;
    let mut out: Vec<u8> = Vec::new();
    let mut k: usize = 0;
    while k < keep
        invariant
            data@.len() == len,
            keep <= len,
            k <= keep,
            out@ == data@.take(k as int),
        decreases keep - k,
    {
        out.push(data[k]);
        k += 1;
    }
    Some(out)
}

} // verus!
