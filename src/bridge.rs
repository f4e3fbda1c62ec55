use vstd::prelude::*;

use crate::codec::{cbor_parses, decode_value, CodecError};
use crate::message::{DrawEvents, Rect};

verus! {

/// What went wrong while answering one engine callback.
#[derive(Copy, Clone, Debug, PartialEq, Eq, Structural)]
pub enum BridgeError {
    /// A handler answered with a load outcome code that is not one of
    /// `-1..=3`.
    InvalidLoadResult { code: i32 },
    /// A handler returned without writing the result holder it was handed.
    UnwrittenFuture,
    /// A handler wrote a result holder that had already been written.
    FutureAlreadyCompleted,
}

/// The byte that an `i8` coming from a foreign caller stands for: the same
/// eight bits, unsigned.
pub open spec fn byte_of(b: i8) -> u8 {
    b as u8
}

/// The bytes that a foreign caller's signed buffer stands for.
pub open spec fn bytes_of(data: Seq<i8>) -> Seq<u8> {
    data.map_values(|b: i8| byte_of(b))
}

/// Reinterprets a foreign caller's signed buffer as bytes, one for one.
pub fn unsigned_bytes(data: &[i8]) -> (r: Vec<u8>)
    ensures
        r@ == bytes_of(data@),
{
    let mut out: Vec<u8> = Vec::with_capacity(data.len());
    let mut i: usize = 0;
    while i < data.len()
        invariant
            i <= data@.len(),
            out@ == bytes_of(data@.subrange(0, i as int)),
        decreases data@.len() - i,
    {
        out.push(data[i] as u8);
        i = i + 1;
        assert(data@.subrange(0, i as int) == data@.subrange(0, i - 1 as int).push(data@[i - 1]));
    }
    assert(data@.subrange(0, data@.len() as int) == data@);
    out
}

/// Reinterprets bytes as the signed buffer a foreign handler takes, one
/// for one.
pub fn signed_bytes(data: &[u8]) -> (r: Vec<i8>)
    ensures
        r@.len() == data@.len(),
        bytes_of(r@) == data@,
{
    let mut out: Vec<i8> = Vec::with_capacity(data.len());
    let mut i: usize = 0;
    while i < data.len()
        invariant
            i <= data@.len(),
            out@.len() == i,
            bytes_of(out@) == data@.subrange(0, i as int),
        decreases data@.len() - i,
    {
        let b: u8 = data[i];
        let s: i8 = b as i8;
        assert((b as i8) as u8 == b) by (bit_vector);
        out.push(s);
        i = i + 1;
        assert(bytes_of(out@) =~= data@.subrange(0, i as int));
    }
    assert(data@.subrange(0, data@.len() as int) == data@);
    out
}

/// A single-slot, write-once, read-once holder for the bytes that a handler
/// hands back to the bridge.
#[derive(Debug)]
pub struct ByteArrayFuture {
    data: Option<Vec<u8>>,
}

impl View for ByteArrayFuture {
    type V = Option<Seq<u8>>;

    closed spec fn view(&self) -> Option<Seq<u8>> {
        match self.data {
            Some(v) => Some(v@),
            None => None,
        }
    }
}

impl ByteArrayFuture {
    /// An empty holder.
    pub fn new() -> (r: ByteArrayFuture)
        ensures
            r@ is None,
    {
        ByteArrayFuture { data: None }
    }

    /// What the holder holds now, left in place.
    pub fn handle(&self) -> (r: Option<Vec<u8>>)
        ensures
            r matches Some(v) ==> self@ == Some(v@),
            r is None <==> self@ is None,
    {
        match &self.data {
            Some(v) => Some(v.clone()),
            None => None,
        }
    }

    /// Writes `data` into the holder. A holder is written once: a second
    /// write fails and leaves the first in place.
    pub fn complete(&mut self, data: &[i8]) -> (r: Result<(), BridgeError>)
        ensures
            old(self)@ is None ==> r is Ok && final(self)@ == Some(bytes_of(data@)),
            old(self)@ is Some ==> r == Err::<(), BridgeError>(
                BridgeError::FutureAlreadyCompleted,
            ) && final(self)@ == old(self)@,
    {
        if self.data.is_some() {
            return Err(BridgeError::FutureAlreadyCompleted);
        }
        self.data = Some(unsigned_bytes(data));
        Ok(())
    }

    /// Reads the holder back, emptying it. Reading an unwritten holder is
    /// an error, never an empty result.
    pub fn take(&mut self) -> (r: Result<Vec<u8>, BridgeError>)
        ensures
            final(self)@ is None,
            old(self)@ matches Some(d) ==> r matches Ok(v) && v@ == d,
            old(self)@ is None ==> r == Err::<Vec<u8>, BridgeError>(BridgeError::UnwrittenFuture),
    {
        match self.data.take() {
            Some(v) => Ok(v),
            None => Err(BridgeError::UnwrittenFuture),
        }
    }
}

/// How the engine is to go on with a resource that it asked the host for.
#[derive(Copy, Clone, Debug, PartialEq, Eq, Structural)]
pub enum LoadResult {
    /// Load the resource as usual, unless data was delivered.
    Default,
    /// Drop the request.
    Discard,
    /// The data comes later, through a completion keyed by the request id.
    Delayed,
    /// The host takes care of the request entirely.
    Myself,
}

impl LoadResult {
    /// The engine's numeric code for this outcome.
    pub open spec fn code(self) -> u32 {
        match self {
            LoadResult::Default => 0,
            LoadResult::Discard => 1,
            LoadResult::Delayed => 2,
            LoadResult::Myself => 3,
        }
    }
}

/// What a data-load handler's outcome code means: `-1` leaves the request to
/// the engine, `0..=3` name a `LoadResult`, anything else is no outcome.
pub open spec fn load_outcome(code: i32) -> Option<Option<LoadResult>> {
    if code == -1 {
        Some(None)
    } else if code == 0 {
        Some(Some(LoadResult::Default))
    } else if code == 1 {
        Some(Some(LoadResult::Discard))
    } else if code == 2 {
        Some(Some(LoadResult::Delayed))
    } else if code == 3 {
        Some(Some(LoadResult::Myself))
    } else {
        None
    }
}

/// Reads a data-load handler's outcome code.
pub fn load_result_from_code(code: i32) -> (r: Result<Option<LoadResult>, BridgeError>)
    ensures
        load_outcome(code) matches Some(o) ==> r == Ok::<Option<LoadResult>, BridgeError>(o),
        load_outcome(code) is None ==> r == Err::<Option<LoadResult>, BridgeError>(
            BridgeError::InvalidLoadResult { code },
        ),
{
    if code == -1 {
        Ok(None)
    } else if code == 0 {
        Ok(Some(LoadResult::Default))
    } else if code == 1 {
        Ok(Some(LoadResult::Discard))
    } else if code == 2 {
        Ok(Some(LoadResult::Delayed))
    } else if code == 3 {
        Ok(Some(LoadResult::Myself))
    } else {
        Err(BridgeError::InvalidLoadResult { code })
    }
}

/// The bridge's answer to one resource request of the engine.
#[derive(Clone, Debug)]
pub struct DataLoadReply {
    /// How the engine goes on; `None` leaves it to the engine.
    pub result: Option<LoadResult>,
    /// Bytes to hand to the engine at once for the requested uri, if the
    /// handler supplied any.
    pub inline_data: Option<Vec<u8>>,
}

impl DataLoadReply {
    /// The answer when no handler is registered: the engine does as it
    /// would without a host.
    pub fn unhandled() -> (r: DataLoadReply)
        ensures
            r.result is None,
            r.inline_data is None,
    {
        DataLoadReply { result: None, inline_data: None }
    }
}

impl View for DataLoadReply {
    type V = (Option<LoadResult>, Option<Seq<u8>>);

    open spec fn view(&self) -> (Option<LoadResult>, Option<Seq<u8>>) {
        (
            self.result,
            match self.inline_data {
                Some(v) => Some(v@),
                None => None,
            },
        )
    }
}

/// The bridge's answer to a data-load handler that gave outcome code `code`
/// and left `held` in its result holder.
pub open spec fn data_load_answer(code: i32, held: Option<Seq<u8>>) -> Result<
    (Option<LoadResult>, Option<Seq<u8>>),
    BridgeError,
> {
    match load_outcome(code) {
        None => Err(BridgeError::InvalidLoadResult { code }),
        Some(o) => match held {
            None => Err(BridgeError::UnwrittenFuture),
            Some(d) => Ok((o, if d.len() > 0 { Some(d) } else { None })),
        },
    }
}

/// The view of a data-load answer.
pub open spec fn reply_view(r: Result<DataLoadReply, BridgeError>) -> Result<
    (Option<LoadResult>, Option<Seq<u8>>),
    BridgeError,
> {
    match r {
        Ok(reply) => Ok(reply@),
        Err(e) => Err(e),
    }
}

/// Resolves a data-load handler's answer: its outcome code and the holder it
/// was handed, which it must have written before returning (with no bytes
/// when it has none to give at once). A handler that answers `Delayed`
/// delivers its bytes later, through a completion keyed by the request id.
/// An unwritten holder is the error `UnwrittenFuture`, never an empty
/// result: a defect in the handler, which the host fails loudly on.
pub fn resolve_data_load(code: i32, future: &mut ByteArrayFuture) -> (r: Result<
    DataLoadReply,
    BridgeError,
>)
    ensures
        final(future)@ is None,
        reply_view(r) == data_load_answer(code, old(future)@),
{
    let outcome = load_result_from_code(code);
    match outcome {
        Err(e) => {
            let _ = future.take();
            Err(e)
        },
        Ok(result) => {
            let data = future.take();
            match data {
                Err(e) => Err(e),
                Ok(bytes) => {
                    if bytes.len() > 0 {
                        Ok(DataLoadReply { result, inline_data: Some(bytes) })
                    } else {
                        Ok(DataLoadReply { result, inline_data: None })
                    }
                },
            }
        },
    }
}

/// The bridge's answer to a native-invocation handler that said whether it
/// `produced` a value and left `held` in its result holder.
pub open spec fn native_answer(produced: bool, held: Option<Seq<u8>>) -> Result<
    Option<Seq<u8>>,
    BridgeError,
> {
    if !produced {
        Ok(None)
    } else {
        match held {
            None => Err(BridgeError::UnwrittenFuture),
            Some(d) => Ok(Some(d)),
        }
    }
}

/// The view of a native-invocation answer.
pub open spec fn answer_view(r: Result<Option<Vec<u8>>, BridgeError>) -> Result<
    Option<Seq<u8>>,
    BridgeError,
> {
    match r {
        Ok(Some(v)) => Ok(Some(v@)),
        Ok(None) => Ok(None),
        Err(e) => Err(e),
    }
}

/// Resolves a native-invocation handler's answer: whether it produced a
/// value, and the holder it was handed, which it must have written before
/// returning when it did. A handler that declines yields no result, never an
/// empty one; one that claims a result and writes none yields the error
/// `UnwrittenFuture`, a defect the host fails loudly on.
pub fn resolve_native_invocation(produced: bool, future: &mut ByteArrayFuture) -> (r: Result<
    Option<Vec<u8>>,
    BridgeError,
>)
    ensures
        final(future)@ is None,
        answer_view(r) == native_answer(produced, old(future)@),
{
    if !produced {
        let _ = future.take();
        return Ok(None);
    }
    match future.take() {
        Ok(bytes) => Ok(Some(bytes)),
        Err(e) => Err(e),
    }
}

/// A handler for the engine's resource requests. It answers with an
/// outcome code (`-1` for none, else a `LoadResult` code) and writes
/// `return_value` before returning, with no bytes when it has none to give
/// at once.
pub trait DataLoadCallback {
    fn on_data_load(&self, uri: String, request_id: u64, return_value: &mut ByteArrayFuture) -> i32;
}

/// A handler that paints a custom-drawn element; it answers whether it did.
pub trait DrawCallback {
    fn on_draw(&self, area: Rect, layer: DrawEvents) -> bool;
}

/// A handler for script calls into the host. It answers whether it produced
/// a value, and writes the encoded value into `return_value` before
/// returning when it did.
pub trait NativeFunctionInvocationCallback {
    fn on_native_function_invocation(
        &self,
        name: String,
        data: &[i8],
        return_value: &mut ByteArrayFuture,
    ) -> bool;
}

/// The handlers of one session: at most one of each kind. Registering a
/// handler replaces the one before it.
pub struct Callbacks<D, N> {
    pub data_load_callback: Option<D>,
    pub native_function_invocation_callback: Option<N>,
}

impl<D, N> Callbacks<D, N> {
    /// No handler of either kind.
    pub fn new() -> (r: Callbacks<D, N>)
        ensures
            r.data_load_callback is None,
            r.native_function_invocation_callback is None,
    {
        Callbacks { data_load_callback: None, native_function_invocation_callback: None }
    }

    /// Registers `handler` as the data-load handler, handing back the one it
    /// replaces.
    pub fn on_data_load(&mut self, handler: D) -> (r: Option<D>)
        ensures
            *final(self) == with_data_load(*old(self), handler),
            r == old(self).data_load_callback,
    {
        let previous = self.data_load_callback.take();
        self.data_load_callback = Some(handler);
        previous
    }

    /// Registers `handler` as the native-invocation handler, handing back
    /// the one it replaces.
    pub fn on_native_function_invocation(&mut self, handler: N) -> (r: Option<N>)
        ensures
            final(self).native_function_invocation_callback == Some(handler),
            final(self).data_load_callback == old(self).data_load_callback,
            r == old(self).native_function_invocation_callback,
    {
        let previous = self.native_function_invocation_callback.take();
        self.native_function_invocation_callback = Some(handler);
        previous
    }
}

/// A registry after `handler` is registered as its data-load handler.
pub open spec fn with_data_load<D, N>(c: Callbacks<D, N>, handler: D) -> Callbacks<D, N> {
    Callbacks { data_load_callback: Some(handler), ..c }
}

/// The handler the bridge calls for a resource request is the one
/// registered last: registering a second replaces the first, and nothing of
/// the first stays in the registry.
pub proof fn lemma_data_load_last_wins<D, N>(c: Callbacks<D, N>, first: D, second: D)
    ensures
        with_data_load(with_data_load(c, first), second).data_load_callback == Some(second),
        with_data_load(with_data_load(c, first), second) == with_data_load(c, second),
{
}

/// A native-invocation handler that declines gets the engine no result,
/// whatever its result holder holds: never an empty but present value.
pub proof fn lemma_declined_is_no_result(held: Option<Seq<u8>>)
    ensures
        native_answer(false, held) == Ok::<Option<Seq<u8>>, BridgeError>(None),
{
}

/// Answers a resource request of the engine for `uri` through `handler`,
/// the registered data-load handler. With none registered the engine does as
/// it would without a host. The handler is taken apart from the registry, so
/// that it may register handlers while it runs.
pub fn invoke_data_load<D: DataLoadCallback>(
    handler: Option<&D>,
    uri: String,
    request_id: u64,
) -> (r: Result<DataLoadReply, BridgeError>)
    ensures
        handler is None ==> reply_view(r) == Ok::<
            (Option<LoadResult>, Option<Seq<u8>>),
            BridgeError,
        >((None, None)),
        reply_view(r) matches Ok((_, Some(d))) ==> d.len() > 0,
        r matches Err(e) ==> e != BridgeError::FutureAlreadyCompleted,
{
    match handler {
        None => Ok(DataLoadReply::unhandled()),
        Some(handler) => {
            let mut future = ByteArrayFuture::new();
            let code = handler.on_data_load(uri, request_id, &mut future);
            resolve_data_load(code, &mut future)
        },
    }
}

/// Why a script call into the host got the engine no result.
#[derive(Copy, Clone, Debug, PartialEq, Eq, Structural)]
pub enum ScriptCallError {
    /// The handler's result is not one well-formed CBOR item.
    Codec { error: CodecError },
    /// The handler claimed a result but did not write its result holder: a
    /// defect in the handler, which the host is to fail loudly on.
    Bridge { error: BridgeError },
}

/// Resolves a native-invocation handler's answer into the value it hands
/// back: no result when it declines, its holder's bytes read as CBOR when it
/// produced one, and an error when it claimed a result but wrote nothing or
/// wrote something that is not CBOR.
pub fn resolve_script_result(produced: bool, future: &mut ByteArrayFuture) -> (r: Result<
    Option<serde_cbor::Value>,
    ScriptCallError,
>)
    ensures
        final(future)@ is None,
        !produced ==> r matches Ok(None),
        produced && old(future)@ is None ==> r == Err::<Option<serde_cbor::Value>, ScriptCallError>(
            ScriptCallError::Bridge { error: BridgeError::UnwrittenFuture },
        ),
        produced ==> (old(future)@ matches Some(d) ==> ((r is Ok) == cbor_parses(d))),
        produced ==> (old(future)@ matches Some(d) ==> (!cbor_parses(d) ==> r == Err::<
            Option<serde_cbor::Value>,
            ScriptCallError,
        >(ScriptCallError::Codec { error: CodecError::Deserialize }))),
        produced && r is Ok ==> r matches Ok(Some(_)),
{
    match resolve_native_invocation(produced, future) {
        Err(error) => Err(ScriptCallError::Bridge { error }),
        Ok(None) => Ok(None),
        Ok(Some(bytes)) => match decode_value(&bytes) {
            Ok(v) => Ok(Some(v)),
            Err(error) => Err(ScriptCallError::Codec { error }),
        },
    }
}

/// Answers a script call `name` through `handler`, the registered
/// native-invocation handler. `args` is the call's argument array, already
/// CBOR-encoded; the handler gets exactly those bytes, and writes its
/// CBOR-encoded result before returning when it produces one. `Ok(None)`
/// gives the engine no result; so does a result that is not CBOR.
pub fn invoke_native_function<N: NativeFunctionInvocationCallback>(
    handler: Option<&N>,
    name: String,
    args: &[u8],
) -> (r: Result<Option<serde_cbor::Value>, ScriptCallError>)
    ensures
        handler is None ==> r matches Ok(None),
        r matches Err(ScriptCallError::Bridge { error }) ==> error == BridgeError::UnwrittenFuture,
        r matches Err(ScriptCallError::Codec { error }) ==> error == CodecError::Deserialize,
{
    match handler {
        None => Ok(None),
        Some(handler) => {
            let signed = signed_bytes(args);
            let mut future = ByteArrayFuture::new();
            let produced = handler.on_native_function_invocation(
                name,
                signed.as_slice(),
                &mut future,
            );
            resolve_script_result(produced, &mut future)
        },
    }
}

/// The engine's code for the event group of custom drawing.
pub const HANDLE_DRAW: u32 = 0x40;

/// A draw handler bound to a behavior name: the engine decides when it runs.
pub struct BehaviorEventHandler<C> {
    pub callback: C,
}

impl<C: DrawCallback> BehaviorEventHandler<C> {
    /// The event groups the handler subscribes to: custom drawing alone.
    pub fn get_subscription(&self) -> (r: Option<u32>)
        ensures
            r == Some(HANDLE_DRAW),
    {
        Some(HANDLE_DRAW)
    }

    /// Answers the engine's request to paint layer `layer_code` of `area`.
    /// The handler runs only once the engine's graphics are `flushed`, and
    /// only for a layer of the engine's protocol; otherwise the area is left
    /// to the engine.
    pub fn on_draw(&self, flushed: bool, area: Rect, layer_code: u32) -> (r: bool)
        ensures
            !flushed ==> !r,
            layer_code > 3 ==> !r,
    {
        if !flushed {
            return false;
        }
        match DrawEvents::from_code(layer_code) {
            Some(layer) => self.callback.on_draw(area, layer),
            None => false,
        }
    }
}

} // verus!
