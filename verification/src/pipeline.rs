use vstd::prelude::*;
use crate::transfer::{Drainer, MemSource, drain};
use crate::urls::{derive_filename, filename_spec};

verus! {

/// Whether an HTTP status is a success (2xx). Only then is the body drained
/// and a file produced; any other status ends the invocation quietly, with
/// no file and no error.
pub open spec fn is_success_spec(status: u16) -> bool {
    200 <= status < 300
}

pub fn status_is_success(status: u16) -> (r: bool)
    ensures
        r == is_success_spec(status),
{
    200 <= status && status < 300
}

/// What one invocation persists: the filename derived from the raw target,
/// and the accumulated bytes of the body.
pub struct Download {
    pub filename: String,
    pub contents: Vec<u8>,
}

/// The pipeline from the moment the response is in hand: on a 2xx status,
/// derive the filename from the raw target, pick the chunk size from the
/// declared length, and drain the body to exhaustion; the file to write
/// holds the body byte for byte. On any other status, nothing is read and
/// nothing is saved.
pub fn handle_response(
    target: &str,
    status: u16,
    content_length: Option<u64>,
    quiet: bool,
    body: &mut MemSource,
) -> (r: Option<Download>)
    requires
        old(body).wf(),
        old(body).pos == 0,
    ensures
        r is Some <==> is_success_spec(status),
        r matches Some(d) ==> d.filename@ == filename_spec(target@) && d.contents@ == old(
            body,
        ).data@,
        !is_success_spec(status) ==> *final(body) == *old(body),
        final(body).data == old(body).data,
{
    if status_is_success(status) {
        let fname: String = derive_filename(target);
        let mut d: Drainer = Drainer::new(content_length, quiet);
        proof {
            broadcast use vstd::std_specs::vec::axiom_spec_len;

            assert(body.data.len() <= usize::MAX);
        }
        let _updates: u64 = drain(&mut d, body);
        proof {
            assert(old(body).data@.subrange(0, old(body).data@.len() as int) =~= old(
                body,
            ).data@);
        }
        Some(Download { filename: fname, contents: d.buf })
    } else {
        None
    }
}

} // verus!
