//! A verified reader for the PNG chunk container format.
//!
//! The library checks the 8-byte magic signature, walks the stream of
//! length-prefixed chunk records, and decodes the known chunk types
//! (image header, pixel density, color profile, chromaticity, image
//! data, end marker) into typed structures.  Unrecognized type codes
//! pass through as opaque payloads.

use vstd::prelude::*;

pub mod png;

verus! {

/// The command-line configuration: the binary's own path followed by
/// the path of the file to read.
pub struct Config {
    pub file_path: String,
    pub binary_path: String,
}

impl Config {
    /// Builds a configuration from the argument list: the first entry
    /// is the binary's path, the second the input file. With fewer
    /// than two entries the respective error message is returned.
    pub fn build(args: Vec<String>) -> (r: Result<Config, &'static str>)
        ensures
            args@.len() >= 2 ==> (r matches Ok(c)
                && c.binary_path@ == args[0]@
                && c.file_path@ == args[1]@),
            args@.len() == 1 ==> (r matches Err(m) && m@ == "No file provided"@),
            args@.len() == 0 ==> (r matches Err(m) && m@ == "Something really went wrong..."@),
    {
        let mut args = args;
        if args.len() == 0 {
            return Err("Something really went wrong...");
        }
        let binary_path = args.remove(0);
        if args.len() == 0 {
            return Err("No file provided");
        }
        let file_path = args.remove(0);
        Ok(Config { binary_path, file_path })
    }
}

/// Returns the first four bytes of `v` as a fixed array.
pub fn vec_to_u32(v: Vec<u8>) -> (r: [u8; 4])
    requires
        v@.len() >= 4,
    ensures
        r@ == v@.subrange(0, 4),
{
    let arr: [u8; 4] = [v[0], v[1], v[2], v[3]];
    proof {
        assert(arr@ =~= v@.subrange(0, 4));
    }
    arr
}

} // verus!
