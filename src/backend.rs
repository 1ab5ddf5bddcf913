//! Building the control-channel transport from the tool's options.
use vstd::prelude::*;
use crate::ti50::Ti50;
use crate::transport::TransportError;

verus! {

/// The options that select a backend instance.
#[derive(Debug)]
pub struct BackendOpts {
    pub instance_id: Option<String>,
}

/// The control-channel transport for the instance that `args` names.
pub fn create(args: &BackendOpts) -> (r: Result<Ti50, TransportError>)
    ensures
        args.instance_id is None ==> r is Err && r->Err_0 is MissingInstanceId,
        args.instance_id matches Some(id) ==> r matches Ok(t) && t.wf() && t.instance_id@ == id@
            && t.control_socket@ == crate::control::control_socket_path_of(id@)
            && t.uart is None && t.gpio@.len() == 0 && t.emu is None,
{
    let id = match &args.instance_id {
        Some(id) => Some(id.clone()),
        None => None,
    };
    Ti50::new(id)
}

} // verus!
