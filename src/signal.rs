use vstd::prelude::*;

verus! {

/// Why a signal could not be handed to the host.
#[derive(Debug, Clone, Copy, PartialEq, Eq, Structural)]
pub enum RinfError {
    /// No host port has been registered yet.
    NoHostChannel,
    /// The background thread could not be created.
    ThreadSpawnFailed,
}

/// One byte payload as it crosses to the host: a zero-length buffer is
/// never sent as such, the sentinel `Absent` stands in its place.
#[derive(Debug, Clone)]
pub enum Slot {
    Absent,
    Filled(Vec<u8>),
}

impl View for Slot {
    type V = Option<Seq<u8>>;

    open spec fn view(&self) -> Option<Seq<u8>> {
        match self {
            Slot::Absent => None,
            Slot::Filled(v) => Some(v@),
        }
    }
}

/// The slot that stands for `m` on the wire.
pub open spec fn packed(m: Seq<u8>) -> Option<Seq<u8>> {
    if m.len() == 0 {
        None
    } else {
        Some(m)
    }
}

/// The bytes that the receiving side rebuilds from a slot.
pub open spec fn restored(s: Option<Seq<u8>>) -> Seq<u8> {
    match s {
        None => Seq::empty(),
        Some(m) => m,
    }
}

/// Puts a payload into a slot, replacing an empty one by the sentinel.
pub fn pack_bytes(bytes: Vec<u8>) -> (r: Slot)
    ensures
        r@ == packed(bytes@),
{
    if bytes.len() == 0 {
        Slot::Absent
    } else {
        Slot::Filled(bytes)
    }
}

/// Rebuilds the payload from a slot, as the receiving side does.
pub fn restore_bytes(slot: Slot) -> (r: Vec<u8>)
    ensures
        r@ == restored(slot@),
{
    match slot {
        Slot::Absent => Vec::new(),
        Slot::Filled(v) => v,
    }
}

/// Every payload, the empty one included, comes back unchanged from its
/// slot, and the slot is present exactly when the payload is non-empty.
pub proof fn lemma_sentinel_round_trip(m: Seq<u8>)
    ensures
        restored(packed(m)) == m,
        packed(m).is_some() == (m.len() > 0),
{
    if m.len() == 0 {
        assert(m =~= Seq::<u8>::empty());
    }
}

/// The single atomic post that goes to the host port on the native side.
#[derive(Debug, Clone)]
pub struct DartPost {
    pub port: i64,
    pub message_id: i32,
    pub message: Slot,
    pub binary: Slot,
}

/// The one slot that holds the host's inbound port; a later registration
/// replaces an earlier one.
#[derive(Debug, Clone, Copy, PartialEq, Eq, Structural)]
pub struct IsolateRegistry {
    pub port: Option<i64>,
}

/// The registry before any port is registered.
pub open spec fn fresh_registry() -> IsolateRegistry {
    IsolateRegistry { port: None }
}

/// The registry after `port` is registered.
pub open spec fn registered(reg: IsolateRegistry, port: i64) -> IsolateRegistry {
    IsolateRegistry { port: Some(port), ..reg }
}

/// Where a signal sent now goes: the registered port, or the error.
pub open spec fn send_target(reg: IsolateRegistry) -> Result<i64, RinfError> {
    match reg.port {
        None => Err(RinfError::NoHostChannel),
        Some(port) => Ok(port),
    }
}

impl IsolateRegistry {
    pub fn new() -> (r: IsolateRegistry)
        ensures
            r == fresh_registry(),
    {
        IsolateRegistry { port: None }
    }
}

/// Stores `port` as the host's inbound port, replacing any earlier one.
pub fn prepare_isolate_extern(registry: &mut IsolateRegistry, port: i64)
    ensures
        *final(registry) == registered(*old(registry), port),
{
    registry.port = Some(port);
}

/// Frames a signal for the registered host port. Fails with `NoHostChannel`
/// exactly when no port is registered; the registry is only read.
pub fn send_rust_signal_real(
    registry: &IsolateRegistry,
    message_id: i32,
    message_bytes: Vec<u8>,
    binary: Vec<u8>,
) -> (r: Result<DartPost, RinfError>)
    ensures
        r is Ok <==> send_target(*registry) is Ok,
        match r {
            Err(e) => send_target(*registry) == Err::<i64, RinfError>(e),
            Ok(p) => {
                &&& send_target(*registry) == Ok::<i64, RinfError>(p.port)
                &&& p.message_id == message_id
                &&& p.message@ == packed(message_bytes@)
                &&& p.binary@ == packed(binary@)
            },
        },
{
    match registry.port {
        None => Err(RinfError::NoHostChannel),
        Some(port) => {
            let message = pack_bytes(message_bytes);
            let binary = pack_bytes(binary);
            Ok(DartPost { port, message_id, message, binary })
        },
    }
}

/// Before any registration, a send fails with `NoHostChannel`.
pub proof fn lemma_send_without_channel()
    ensures
        send_target(fresh_registry()) == Err::<i64, RinfError>(RinfError::NoHostChannel),
{
}

/// After registering `h1` and then `h2`, a send goes to `h2` only.
pub proof fn lemma_register_replaces(reg: IsolateRegistry, h1: i64, h2: i64)
    ensures
        send_target(registered(registered(reg, h1), h2)) == Ok::<i64, RinfError>(h2),
{
}

/// The foreign call made on the single-threaded web side: message presence
/// is read from its length, binary presence from an explicit flag.
#[derive(Debug, Clone)]
pub struct WebPost {
    pub message_id: i32,
    pub message_bytes: Vec<u8>,
    pub binary_included: bool,
    pub binary_bytes: Vec<u8>,
}

/// Frames a signal for the web host.
pub fn send_rust_signal_extern(
    message_id: i32,
    message_bytes: Vec<u8>,
    binary_bytes: Vec<u8>,
) -> (r: WebPost)
    ensures
        r.message_id == message_id,
        r.message_bytes@ == message_bytes@,
        r.binary_included == (binary_bytes@.len() > 0),
        r.binary_bytes@ == binary_bytes@,
{
    let binary_included = binary_bytes.len() > 0;
    WebPost { message_id, message_bytes, binary_included, binary_bytes }
}

/// The binary payload that the web host rebuilds from a post.
pub open spec fn web_binary(p: WebPost) -> Seq<u8> {
    if p.binary_included {
        p.binary_bytes@
    } else {
        Seq::empty()
    }
}

/// A web post gives back the binary payload unchanged, the empty one
/// included; the message bytes travel as they are.
pub proof fn lemma_web_round_trip(p: WebPost, message_bytes: Seq<u8>, binary_bytes: Seq<u8>)
    requires
        p.message_bytes@ == message_bytes,
        p.binary_included == (binary_bytes.len() > 0),
        p.binary_bytes@ == binary_bytes,
    ensures
        web_binary(p) == binary_bytes,
{
    if binary_bytes.len() == 0 {
        assert(binary_bytes =~= Seq::<u8>::empty());
    }
}

} // verus!
