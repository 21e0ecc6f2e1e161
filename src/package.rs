use vstd::prelude::*;
use vstd::utf8::{valid_utf8, decode_utf8};

verus! {

/// The first byte of every package.
pub const PACKAGE_MARKER: u8 = 0x00;

/// The fewest bytes that a package can have: marker, version, two length
/// bytes and a two-byte payload length.
pub const MIN_PACKAGE_LEN: usize = 6;

/// A package taken apart: its metadata and the program it carries.
#[derive(Debug)]
pub struct Package {
    pub version: u8,
    pub name: String,
    pub description: String,
    pub payload: Vec<u8>,
}

/// Which field of a package did not fit in its bytes.
#[derive(Clone, Copy, PartialEq, Eq, Structural, Debug)]
pub enum PackageError {
    /// Fewer bytes than the fixed part of the layout.
    TooSmall,
    /// The first byte is not the package marker.
    InvalidMarker,
    /// The name runs past the end.
    NameOverrun,
    /// The description, or its length byte, runs past the end.
    DescriptionOverrun,
    /// The two bytes of the payload length are missing.
    MissingPayloadLength,
    /// The payload runs past the end.
    PayloadIncomplete,
}

/// Where the name ends.
pub open spec fn name_end(b: Seq<u8>) -> int {
    3 + b[2]
}

/// Where the description ends.
pub open spec fn desc_end(b: Seq<u8>) -> int {
    name_end(b) + 1 + b[name_end(b)]
}

/// The payload length, big-endian in the two bytes after the description.
pub open spec fn payload_len(b: Seq<u8>) -> int {
    b[desc_end(b)] * 256 + b[desc_end(b) + 1]
}

/// Where the payload ends.
pub open spec fn payload_end(b: Seq<u8>) -> int {
    desc_end(b) + 2 + payload_len(b)
}

/// The first field, in layout order, that does not fit; `None` for a whole package.
pub open spec fn package_error(b: Seq<u8>) -> Option<PackageError> {
    if b.len() < MIN_PACKAGE_LEN {
        Some(PackageError::TooSmall)
    } else if b[0] != PACKAGE_MARKER {
        Some(PackageError::InvalidMarker)
    } else if b.len() < name_end(b) {
        Some(PackageError::NameOverrun)
    } else if b.len() <= name_end(b) || b.len() < desc_end(b) {
        Some(PackageError::DescriptionOverrun)
    } else if b.len() < desc_end(b) + 2 {
        Some(PackageError::MissingPayloadLength)
    } else if b.len() < payload_end(b) {
        Some(PackageError::PayloadIncomplete)
    } else {
        None
    }
}

/// The bytes of the name.
pub open spec fn name_bytes(b: Seq<u8>) -> Seq<u8> {
    b.subrange(3, name_end(b))
}

/// The bytes of the description.
pub open spec fn desc_bytes(b: Seq<u8>) -> Seq<u8> {
    b.subrange(name_end(b) + 1, desc_end(b))
}

/// The bytes of the payload.
pub open spec fn payload_bytes(b: Seq<u8>) -> Seq<u8> {
    b.subrange(desc_end(b) + 2, payload_end(b))
}

/// Relies on `String::from_utf8_lossy`: the text of the bytes, each invalid
/// sequence replaced; the result depends on the bytes alone.
pub uninterp spec fn lossy_text(b: Seq<u8>) -> Seq<char>;

/// Relies on `String::from_utf8_lossy`, which hands back UTF-8 bytes unchanged.
#[verifier::external_body]
fn utf8_lossy(b: &[u8]) -> (r: String)
    ensures
        r@ == lossy_text(b@),
        valid_utf8(b@) ==> r@ == decode_utf8(b@),
{
    String::from_utf8_lossy(b).into_owned()
}

/// Copies the bytes from `start` up to `end`.
fn copy_range(b: &[u8], start: usize, end: usize) -> (r: Vec<u8>)
    requires
        start <= end <= b@.len(),
    ensures
        r@ == b@.subrange(start as int, end as int),
{
    let mut r: Vec<u8> = Vec::new();
    let mut i: usize = start;
    while i < end
        invariant
            start <= i <= end <= b@.len(),
            r@ == b@.subrange(start as int, i as int),
        decreases end - i,
    {
        r.push(b[i]);
        i += 1;
        assert(r@ =~= b@.subrange(start as int, i as int));
    }
    r
}

/// Takes a package apart, checking each length field against the bytes.
pub fn unwrap_package(b: &[u8]) -> (r: Result<Package, PackageError>)
    ensures
        match r {
            Ok(pkg) => {
                &&& package_error(b@) is None
                &&& pkg.version == b@[1]
                &&& pkg.name@ == lossy_text(name_bytes(b@))
                &&& pkg.description@ == lossy_text(desc_bytes(b@))
                &&& valid_utf8(name_bytes(b@)) ==> pkg.name@ == decode_utf8(name_bytes(b@))
                &&& valid_utf8(desc_bytes(b@)) ==> pkg.description@ == decode_utf8(desc_bytes(b@))
                &&& pkg.payload@ == payload_bytes(b@)
            },
            Err(e) => package_error(b@) == Some(e),
        },
{
    if b.len() < MIN_PACKAGE_LEN {
        return Err(PackageError::TooSmall);
    }
    if b[0] != PACKAGE_MARKER {
        return Err(PackageError::InvalidMarker);
    }
    let version = b[1];
    let name_end: usize = 3 + b[2] as usize;
    if b.len() < name_end {
        return Err(PackageError::NameOverrun);
    }
    if b.len() <= name_end {
        return Err(PackageError::DescriptionOverrun);
    }
    let desc_start: usize = name_end + 1;
    let desc_end: usize = desc_start + b[name_end] as usize;
    if b.len() < desc_end {
        return Err(PackageError::DescriptionOverrun);
    }
    if b.len() - desc_end < 2 {
        return Err(PackageError::MissingPayloadLength);
    }
    let payload_len: usize = b[desc_end] as usize * 256 + b[desc_end + 1] as usize;
    let payload_start: usize = desc_end + 2;
    if b.len() - payload_start < payload_len {
        return Err(PackageError::PayloadIncomplete);
    }
    let payload_end: usize = payload_start + payload_len;
    let name = utf8_lossy(copy_range(b, 3, name_end).as_slice());
    let description = utf8_lossy(copy_range(b, desc_start, desc_end).as_slice());
    let payload = copy_range(b, payload_start, payload_end);
    Ok(Package { version, name, description, payload })
}

/// The bytes of a package with these fields.
pub open spec fn package_bytes(version: u8, name: Seq<u8>, desc: Seq<u8>, payload: Seq<u8>) -> Seq<
    u8,
> {
    seq![PACKAGE_MARKER, version, name.len() as u8] + name + seq![desc.len() as u8] + desc + seq![
        (payload.len() / 256) as u8,
        (payload.len() % 256) as u8,
    ] + payload
}

/// A package laid out from its fields is whole, and taking it apart gives back
/// the same version, name, description and payload.
pub proof fn lemma_package_round_trip(version: u8, name: Seq<u8>, desc: Seq<u8>, payload: Seq<u8>)
    requires
        name.len() < 256,
        desc.len() < 256,
        payload.len() < 65536,
    ensures
        ({
            let b = package_bytes(version, name, desc, payload);
            &&& package_error(b) is None
            &&& b[1] == version
            &&& name_bytes(b) == name
            &&& desc_bytes(b) == desc
            &&& payload_bytes(b) == payload
        }),
{
    let b = package_bytes(version, name, desc, payload);
    let n = name.len() as int;
    let d = desc.len() as int;
    let m = payload.len() as int;
    let hi = m / 256;
    let lo = m % 256;
    assert(0 <= hi < 256 && 0 <= lo < 256 && hi * 256 + lo == m) by (nonlinear_arith)
        requires
            0 <= m < 65536,
            hi == m / 256,
            lo == m % 256,
    ;
    assert(b.len() == 6 + n + d + m);
    assert(b[2] == n);
    assert(name_end(b) == 3 + n);
    assert(b[3 + n] == d);
    assert(desc_end(b) == 4 + n + d);
    assert(b[4 + n + d] == hi);
    assert(b[5 + n + d] == lo);
    assert(payload_len(b) == m);
    assert(name_bytes(b) =~= name);
    assert(desc_bytes(b) =~= desc);
    assert(payload_bytes(b) =~= payload);
}

/// Cutting a whole package short, anywhere before the end of its payload,
/// always gives an error.
pub proof fn lemma_truncated_package_fails(b: Seq<u8>, k: int)
    requires
        package_error(b) is None,
        0 <= k < payload_end(b),
    ensures
        package_error(b.take(k)) is Some,
{
    let t = b.take(k);
    if t.len() >= MIN_PACKAGE_LEN {
        assert(t[0] == b[0]);
        assert(t[2] == b[2]);
        if t.len() > name_end(b) {
            assert(t[name_end(b)] == b[name_end(b)]);
            if t.len() >= desc_end(b) + 2 {
                assert(t[desc_end(b)] == b[desc_end(b)]);
                assert(t[desc_end(b) + 1] == b[desc_end(b) + 1]);
            }
        }
    }
}

} // verus!
