//! A two-dimensional resource budget: execution time and proof size.
//! Both axes must be resolved before a transaction is submitted.

use vstd::prelude::*;
use crate::text::{dec_u64, spec_dec};

verus! {

#[derive(Clone, Copy, PartialEq, Eq, Structural, Debug)]
pub struct Weight {
    /// The time a transaction may take to execute.
    pub ref_time: u64,
    /// The proof size a transaction may need.
    pub proof_size: u64,
}

/// Human rendering of a weight, both axes spelled out.
pub open spec fn spec_weight_text(w: Weight) -> Seq<char> {
    "Weight(ref_time: "@ + spec_dec(w.ref_time as nat) + ", proof_size: "@ + spec_dec(
        w.proof_size as nat,
    ) + ")"@
}

/// JSON rendering of a weight: an object with both axes as numbers.
pub open spec fn spec_weight_json(w: Weight) -> Seq<char> {
    "{\"ref_time\":"@ + spec_dec(w.ref_time as nat) + ",\"proof_size\":"@ + spec_dec(
        w.proof_size as nat,
    ) + "}"@
}

impl Weight {
    /// A weight from its two explicit components.
    pub fn from_parts(ref_time: u64, proof_size: u64) -> (w: Weight)
        ensures
            w.ref_time == ref_time,
            w.proof_size == proof_size,
    {
        Weight { ref_time, proof_size }
    }

    pub fn ref_time(&self) -> (r: u64)
        ensures
            r == self.ref_time,
    {
        self.ref_time
    }

    pub fn proof_size(&self) -> (r: u64)
        ensures
            r == self.proof_size,
    {
        self.proof_size
    }

    /// Renders the weight for human output.
    pub fn display(&self) -> (r: String)
        ensures
            r@ == spec_weight_text(*self),
    {
        proof {
            reveal_strlit("Weight(ref_time: ");
            reveal_strlit(", proof_size: ");
            reveal_strlit(")");
        }
        let mut s = String::from_str("Weight(ref_time: ");
        s.append(dec_u64(self.ref_time).as_str());
        s.append(", proof_size: ");
        s.append(dec_u64(self.proof_size).as_str());
        s.append(")");
        s
    }

    /// Renders the weight as a JSON object.
    pub fn to_json(&self) -> (r: String)
        ensures
            r@ == spec_weight_json(*self),
    {
        proof {
            reveal_strlit("{\"ref_time\":");
            reveal_strlit(",\"proof_size\":");
            reveal_strlit("}");
        }
        let mut s = String::from_str("{\"ref_time\":");
        s.append(dec_u64(self.ref_time).as_str());
        s.append(",\"proof_size\":");
        s.append(dec_u64(self.proof_size).as_str());
        s.append("}");
        s
    }
}

} // verus!
