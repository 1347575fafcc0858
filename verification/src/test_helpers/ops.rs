//! Operations, written down from their parts.

use crate::file_operations::{Op, OpView};
use crate::path::{join, joined};
use vstd::prelude::*;

verus! {

/// The link that a log rooted at `op_root` holds for the file `filename` of
/// the shell at `root_path`.
pub fn link_op_for(root_path: &String, op_root: &String, filename: &str) -> (op: Op)
    ensures
        op@ == (OpView::Link {
            path: joined(op_root@, filename@),
            target: joined(root_path@, filename@),
        }),
{
    Op::Link {
        target: join(root_path.as_str(), filename),
        path: join(op_root.as_str(), filename),
    }
}

} // verus!
