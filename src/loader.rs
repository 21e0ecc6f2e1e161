use vstd::prelude::*;

use crate::commands::undefined_text;
use crate::interpreter::Machine;
use crate::number::{int_text, i32_to_text};
use vstd::utf8::{valid_utf8, decode_utf8};

use crate::package::{
    PACKAGE_MARKER, PackageError, package_error, lossy_text, name_bytes, desc_bytes,
    payload_bytes, unwrap_package,
};
use crate::text::concat_text;

verus! {

/// A file made ready to run: the lines to show first, and the machine.
pub struct Loaded {
    pub notes: Vec<String>,
    pub machine: Machine,
}

/// Whether a file is a package: its first byte is the marker. Any other
/// file, the empty one included, is a bare program.
pub open spec fn is_package(b: Seq<u8>) -> bool {
    b.len() > 0 && b[0] == PACKAGE_MARKER
}

/// Tells a package from a bare program by the first byte.
pub fn sniff_package(b: &[u8]) -> (r: bool)
    ensures
        r == is_package(b@),
{
    b.len() > 0 && b[0] == PACKAGE_MARKER
}

/// Makes a file ready to run: a package is taken apart and its metadata shown
/// before its payload runs; a bare program runs as it is.
pub fn load(buffer: Vec<u8>) -> (r: Result<Loaded, PackageError>)
    ensures
        is_package(buffer@) ==> match r {
            Ok(l) => {
                &&& package_error(buffer@) is None
                &&& l.machine.program@ == payload_bytes(buffer@)
                &&& l.machine.pc == 0
                &&& l.machine.value@ == undefined_text()
                &&& l.notes@.len() == 4
                &&& l.notes@[0]@ == "Package Name: "@ + lossy_text(name_bytes(buffer@))
                &&& l.notes@[1]@ == "Description: "@ + lossy_text(desc_bytes(buffer@))
                &&& valid_utf8(name_bytes(buffer@)) ==> l.notes@[0]@ == "Package Name: "@
                    + decode_utf8(name_bytes(buffer@))
                &&& valid_utf8(desc_bytes(buffer@)) ==> l.notes@[1]@ == "Description: "@
                    + decode_utf8(desc_bytes(buffer@))
                &&& l.notes@[2]@ == "Version: "@ + int_text(buffer@[1] as int)
                &&& l.notes@[3]@ == "Running embedded program..."@
            },
            Err(e) => package_error(buffer@) == Some(e),
        },
        !is_package(buffer@) ==> match r {
            Ok(l) => {
                &&& l.machine.program@ == buffer@
                &&& l.machine.pc == 0
                &&& l.machine.value@ == undefined_text()
                &&& l.notes@.len() == 0
            },
            Err(_) => false,
        },
{
    if sniff_package(buffer.as_slice()) {
        match unwrap_package(buffer.as_slice()) {
            Ok(pkg) => {
                let mut notes: Vec<String> = Vec::new();
                notes.push(concat_text("Package Name: ", pkg.name.as_str()));
                notes.push(concat_text("Description: ", pkg.description.as_str()));
                let version = i32_to_text(pkg.version as i32);
                notes.push(concat_text("Version: ", version.as_str()));
                notes.push(String::from_str("Running embedded program..."));
                Ok(Loaded { notes, machine: Machine::new(pkg.payload) })
            },
            Err(e) => Err(e),
        }
    } else {
        Ok(Loaded { notes: Vec::new(), machine: Machine::new(buffer) })
    }
}

} // verus!
