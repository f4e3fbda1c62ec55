use vstd::prelude::*;

use vstd::string::StringSliceAdditionalSpecFns;

use crate::bridge::LoadResult;

verus! {

/// What a simple host hears from the engine: a repaint is due, a script
/// raised an event, or a resource is wanted.
pub trait SciterEvents {
    fn on_redraw_required(&self);

    fn on_event(&self, name: String, data: String);

    fn on_load_resource(&self, uri: String, request_id: u64);
}

/// The bytes of the scheme of the engine's own resources, `sciter:`.
pub open spec fn engine_scheme() -> Seq<u8> {
    seq![115u8, 99u8, 105u8, 116u8, 101u8, 114u8, 58u8]
}

/// Whether the uri whose bytes are `b` names one of the engine's own
/// resources.
pub open spec fn is_engine_resource(b: Seq<u8>) -> bool {
    b.len() >= engine_scheme().len() && b.subrange(0, engine_scheme().len() as int)
        == engine_scheme()
}

/// Checks `is_engine_resource` on `uri`.
pub fn is_engine_uri(uri: &str) -> (r: bool)
    ensures
        r == is_engine_resource(uri.spec_bytes()),
{
    let b = uri.as_bytes();
    let scheme: [u8; 7] = [115u8, 99u8, 105u8, 116u8, 101u8, 114u8, 58u8];
    assert(scheme@ == engine_scheme());
    if b.len() < 7 {
        return false;
    }
    let mut i: usize = 0;
    while i < 7
        invariant
            b.len() >= 7,
            b@ == uri.spec_bytes(),
            scheme@ == engine_scheme(),
            i <= 7,
            b@.subrange(0, i as int) == engine_scheme().subrange(0, i as int),
        decreases 7 - i,
    {
        if b[i] != scheme[i] {
            assert(b@.subrange(0, 7)[i as int] != engine_scheme()[i as int]);
            return false;
        }
        assert(b@.subrange(0, i + 1 as int) =~= engine_scheme().subrange(0, i + 1 as int));
        i = i + 1;
    }
    assert(engine_scheme().subrange(0, 7) =~= engine_scheme());
    true
}

/// Forwards a script's `call_event(name, data)` to the host.
pub struct EventHandler<E>(pub E);

impl<E: SciterEvents> EventHandler<E> {
    pub fn call_event(&self, name: String, data: String) {
        self.0.on_event(name, data);
    }
}

/// Answers the engine's callbacks for a simple host: every resource but the
/// engine's own is loaded by the host later, through a completion keyed by
/// the request id.
pub struct HostHandler<E>(pub E);

impl<E: SciterEvents> HostHandler<E> {
    /// Answers a resource request for `uri`: the engine loads its own
    /// resources, and the host is told of every other and delivers it later.
    pub fn on_data_load(&self, uri: &str, request_id: u64) -> (r: Option<LoadResult>)
        ensures
            is_engine_resource(uri.spec_bytes()) ==> r is None,
            !is_engine_resource(uri.spec_bytes()) ==> r == Some(LoadResult::Delayed),
    {
        if !is_engine_uri(uri) {
            self.0.on_load_resource(uri.to_owned(), request_id);
            Some(LoadResult::Delayed)
        } else {
            None
        }
    }

    /// Tells the host that part of the window needs repainting.
    pub fn on_invalidate(&self) {
        self.0.on_redraw_required();
    }
}

} // verus!
