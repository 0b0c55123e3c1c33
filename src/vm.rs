//! The local virtual machine that can stand in for a remote host.

use vstd::prelude::*;
use crate::text::{decimal_value, is_decimal, lemma_pieces_nonempty, parse_u32, pieces, split};

verus! {

/// A running local VM, reached over SSH on `ssh_port`.
#[derive(Clone, Copy, Debug, PartialEq, Eq, Structural)]
pub struct Vm {
    pub ssh_port: u16,
}

/// The port in the output of the compose `port` command: the text after its
/// last colon, in decimal.
pub open spec fn published_port(output: Seq<char>) -> Option<u16> {
    let p = pieces(output, ':');
    let last = p[p.len() - 1];
    if is_decimal(last) && decimal_value(last) <= u16::MAX {
        Some(decimal_value(last) as u16)
    } else {
        None
    }
}

impl Vm {
    /// The VM whose SSH port the compose `port` command printed as `output`.
    pub fn get_vm(output: &str) -> (r: Option<Vm>)
        ensures
            match published_port(output@) {
                Some(port) => r == Some(Vm { ssh_port: port }),
                None => r is None,
            },
    {
        let parts = split(output, ':');
        let n = parts.len();
        proof {
            assert(parts@.len() == pieces(output@, ':').len());
            lemma_pieces_nonempty(output@, ':');
        }
        if n == 0 {
            return None;
        }
        proof {
            assert(parts@[n - 1]@ == pieces(output@, ':')[n - 1]);
        }
        match parse_u32(parts[n - 1].as_str()) {
            Some(v) => {
                if v <= u16::MAX as u32 {
                    Some(Vm { ssh_port: v as u16 })
                } else {
                    None
                }
            },
            None => None,
        }
    }
}

} // verus!
