//! Node model — updown.io monitoring probe locations.

use vstd::prelude::*;
use crate::models::common::{clone_opt, or_dash, text_or_dash};

verus! {

/// A monitoring node (probe location) as returned by `GET /api/nodes`.
///
/// The API response is a map from location code (e.g. `"fra"`) to `Node`; the code
/// is not embedded in the struct itself. The probe's coordinates are not held here:
/// nothing the commands decide reads them.
pub struct Node {
    /// IPv4 address of the probe.
    pub ip: Option<String>,
    /// IPv6 address of the probe.
    pub ip6: Option<String>,
    /// City where the probe is hosted.
    pub city: Option<String>,
    /// Full country name.
    pub country: Option<String>,
    /// ISO 3166-1 alpha-2 country code.
    pub country_code: Option<String>,
}

/// Flattened, display-ready representation of a node for table output.
///
/// Includes the location `code` key from the API response map, which is
/// not part of the [`Node`] struct itself.
pub struct NodeRow {
    /// Location code (e.g. `"fra"`, `"sin"`).
    pub code: String,
    pub city: String,
    pub country: String,
    pub ip: String,
    pub ip6: String,
}

/// The row for the node at location `code`, with `-` for whatever is absent.
pub open spec fn node_row_of(code: Seq<char>, n: Node, r: NodeRow) -> bool {
    &&& r.code@ == code
    &&& r.city@ == text_or_dash(n.city)
    &&& r.country@ == text_or_dash(n.country)
    &&& r.ip@ == text_or_dash(n.ip)
    &&& r.ip6@ == text_or_dash(n.ip6)
}

impl NodeRow {
    /// The table row for the node at location `code`.
    pub fn from_entry(code: &String, n: &Node) -> (r: NodeRow)
        ensures
            node_row_of(code@, *n, r),
    {
        NodeRow {
            code: code.clone(),
            city: or_dash(&n.city),
            country: or_dash(&n.country),
            ip: or_dash(&n.ip),
            ip6: or_dash(&n.ip6),
        }
    }
}

impl Node {
    /// A copy of the node.
    pub fn duplicate(&self) -> (r: Node)
        ensures
            r == *self,
    {
        Node {
            ip: clone_opt(&self.ip),
            ip6: clone_opt(&self.ip6),
            city: clone_opt(&self.city),
            country: clone_opt(&self.country),
            country_code: clone_opt(&self.country_code),
        }
    }
}

} // verus!
