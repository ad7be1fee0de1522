//! Calls between storage partitions, and between the modules of one.
//!
//! A call into another partition presents a capability claim that was
//! negotiated beforehand. The transport itself is handed in by the caller;
//! what is decided here is which call goes out and what every answer means.

use vstd::prelude::*;
use vstd::string::StringExecFns;

verus! {

/// The hash that names a storage partition.
#[derive(Debug, PartialEq, Eq)]
pub struct DnaHash {
    pub bytes: Vec<u8>,
}

/// The key that names an agent.
#[derive(Debug, PartialEq, Eq)]
pub struct AgentPubKey {
    pub bytes: Vec<u8>,
}

/// The secret of a capability grant.
#[derive(Debug, PartialEq, Eq)]
pub struct CapSecret {
    pub bytes: Vec<u8>,
}

/// One agent's instance of one partition.
#[derive(Debug, PartialEq, Eq)]
pub struct CellId {
    pub dna_hash: DnaHash,
    pub agent_pub_key: AgentPubKey,
}

/// A capability claim: the right, granted by `grantor`, to present `secret`.
#[derive(Debug, PartialEq, Eq)]
pub struct CapClaim {
    pub tag: String,
    pub grantor: AgentPubKey,
    pub secret: CapSecret,
}

/// What was negotiated for one permission of one remote partition: the claim
/// to present, and the module and function that the permission stands for.
#[derive(Debug, PartialEq, Eq)]
pub struct DNAConnectionAuth {
    pub claim: CapClaim,
    pub zome_name: String,
    pub fn_name: String,
}

/// One line of the authorization table.
#[derive(Debug, PartialEq, Eq)]
pub struct AuthEntry {
    pub to_dna: DnaHash,
    pub permission_id: String,
    pub auth: DNAConnectionAuth,
}

/// Where a call goes.
#[derive(Debug, PartialEq, Eq)]
pub enum CallTargetCell {
    /// Into a cell of another partition.
    Other(CellId),
    /// Into another module of the calling cell.
    Local,
}

/// A call as it is handed to the transport.
#[derive(Debug, PartialEq, Eq)]
pub struct OutboundCall<I> {
    pub to_cell: CallTargetCell,
    pub zome_name: String,
    pub fn_name: String,
    pub cap_secret: Option<CapSecret>,
    pub payload: I,
}

/// What the callee answered.
#[derive(Debug, PartialEq, Eq)]
pub enum ZomeCallResponse {
    /// The call ran; these are the encoded bytes of what it returned.
    Success(Vec<u8>),
    /// The capability was not accepted: cell, module, function and caller.
    Unauthorized(CellId, String, String, AgentPubKey),
    /// The callee could not be reached.
    NetworkError(String),
    /// A countersigning session stood in the way.
    CountersigningSession(String),
}

/// Why a call between cells failed.
#[derive(Debug, PartialEq, Eq)]
pub enum CrossCellError {
    /// The answer arrived but its bytes do not decode to what was expected.
    Serialization(String),
    /// Nothing is configured for this caller and method.
    NotConfigured(String, String),
    /// The capability was not accepted: cell, module, function and caller.
    Unauthorized(CellId, String, String, AgentPubKey),
    /// The transport or the remote side failed.
    NetworkError(String),
}

/// Whether two byte strings are the same.
pub fn same_bytes(a: &Vec<u8>, b: &Vec<u8>) -> (same: bool)
    ensures
        same == (a@ == b@),
{
    if a.len() != b.len() {
        return false;
    }
    let mut i: usize = 0;
    while i < a.len()
        invariant
            i <= a.len(),
            a.len() == b.len(),
            forall|k: int| 0 <= k < i ==> a@[k] == b@[k],
        decreases a.len() - i,
    {
        if a[i] != b[i] {
            return false;
        }
        i = i + 1;
    }
    assert(a@ =~= b@);
    true
}

/// A copy of a byte string.
pub fn copy_bytes(bytes: &Vec<u8>) -> (copy: Vec<u8>)
    ensures
        copy@ == bytes@,
{
    let mut copy: Vec<u8> = Vec::new();
    let mut i: usize = 0;
    while i < bytes.len()
        invariant
            i <= bytes.len(),
            copy@ == bytes@.take(i as int),
        decreases bytes.len() - i,
    {
        copy.push(bytes[i]);
        assert(bytes@.take(i + 1) == bytes@.take(i as int).push(bytes@[i as int]));
        i = i + 1;
    }
    assert(bytes@.take(bytes@.len() as int) == bytes@);
    copy
}

/// The position of the first line of `entries` for this partition and
/// permission at or after `from`, or the length of `entries` if there is none.
pub open spec fn first_line_from(entries: Seq<AuthEntry>, to_dna: Seq<u8>, permission_id: Seq<char>, from: int) -> int
    decreases entries.len() - from,
{
    if from < 0 || from >= entries.len() {
        entries.len() as int
    } else if entries[from].to_dna.bytes@ == to_dna && entries[from].permission_id@ == permission_id {
        from
    } else {
        first_line_from(entries, to_dna, permission_id, from + 1)
    }
}

/// The authorization that the table holds for a partition and a permission:
/// that of the first line for them.
pub open spec fn resolved_auth(entries: Seq<AuthEntry>, to_dna: Seq<u8>, permission_id: Seq<char>) -> Option<
    DNAConnectionAuth,
> {
    let at = first_line_from(entries, to_dna, permission_id, 0);
    if at < entries.len() {
        Some(entries[at].auth)
    } else {
        None
    }
}

/// The authorizations that were negotiated with remote partitions.
pub struct AuthRegistry {
    entries: Vec<AuthEntry>,
}

impl View for AuthRegistry {
    type V = Seq<AuthEntry>;

    closed spec fn view(&self) -> Seq<AuthEntry> {
        self.entries@
    }
}

impl AuthRegistry {
    /// A table without lines.
    pub fn new() -> (registry: Self)
        ensures
            registry@ == Seq::<AuthEntry>::empty(),
    {
        AuthRegistry { entries: Vec::new() }
    }

    /// Adds a line below those that are there.
    pub fn register(&mut self, entry: AuthEntry)
        ensures
            final(self)@ == old(self)@.push(entry),
    {
        self.entries.push(entry);
    }

    /// The authorization for a permission of a remote partition, if one was
    /// negotiated.
    pub fn resolve(&self, to_dna: &DnaHash, permission_id: &str) -> (found: Option<&DNAConnectionAuth>)
        ensures
            match resolved_auth(self@, to_dna.bytes@, permission_id@) {
                Some(auth) => found == Some(&auth),
                None => found is None,
            },
    {
        let wanted = permission_id.to_owned();
        let mut i: usize = 0;
        while i < self.entries.len()
            invariant
                i <= self.entries.len(),
                wanted@ == permission_id@,
                first_line_from(self@, to_dna.bytes@, permission_id@, 0) == first_line_from(
                    self@,
                    to_dna.bytes@,
                    permission_id@,
                    i as int,
                ),
            decreases self.entries.len() - i,
        {
            let entry = &self.entries[i];
            if same_bytes(&entry.to_dna.bytes, &to_dna.bytes) && entry.permission_id == wanted {
                return Some(&entry.auth);
            }
            i = i + 1;
        }
        None
    }
}

/// Whether `call` is the call that this authorization asks for: into the
/// grantor's cell of the partition, to the module and function that the
/// permission stands for, with the claim's secret and the caller's payload.
pub open spec fn is_remote_call<I>(call: OutboundCall<I>, to_dna: DnaHash, auth: DNAConnectionAuth, payload: I) -> bool {
    &&& call.to_cell matches CallTargetCell::Other(cell)
    &&& cell.dna_hash.bytes@ == to_dna.bytes@
    &&& cell.agent_pub_key.bytes@ == auth.claim.grantor.bytes@
    &&& call.zome_name@ == auth.zome_name@
    &&& call.fn_name@ == auth.fn_name@
    &&& call.cap_secret matches Some(secret)
    &&& secret.bytes@ == auth.claim.secret.bytes@
    &&& call.payload == payload
}

/// Whether `call` is the call into the module `zome_name` of the calling cell:
/// to the function `fn_name`, without a secret, with the caller's payload.
pub open spec fn is_local_call<I>(call: OutboundCall<I>, zome_name: Seq<char>, fn_name: Seq<char>, payload: I) -> bool {
    &&& call.to_cell is Local
    &&& call.zome_name@ == zome_name
    &&& call.fn_name@ == fn_name
    &&& call.cap_secret is None
    &&& call.payload == payload
}

/// What a decoded answer becomes.
pub open spec fn decoded<R>(outcome: Result<R, String>) -> Result<R, CrossCellError> {
    match outcome {
        Ok(value) => Ok(value),
        Err(message) => Err(CrossCellError::Serialization(message)),
    }
}

/// Whether `result` is what the answer `resp` means, `decode` being the
/// decoder of the expected response.
pub open spec fn is_handled<R, K: FnOnce(Vec<u8>) -> Result<R, String>>(
    resp: ZomeCallResponse,
    decode: K,
    result: Result<R, CrossCellError>,
) -> bool {
    match resp {
        ZomeCallResponse::Success(data) => exists|outcome: Result<R, String>|
            call_ensures(decode, (data,), outcome) && result == decoded(outcome),
        ZomeCallResponse::Unauthorized(cell, zome, function, agent) => result == Err::<R, CrossCellError>(
            CrossCellError::Unauthorized(cell, zome, function, agent),
        ),
        ZomeCallResponse::NetworkError(message) => result == Err::<R, CrossCellError>(
            CrossCellError::NetworkError(message),
        ),
        ZomeCallResponse::CountersigningSession(message) => result == Err::<R, CrossCellError>(
            CrossCellError::NetworkError(message),
        ),
    }
}

/// Whether `result` is what the transport's `reply` means: a failure of the
/// transport is a network error, and an answer is handled.
pub open spec fn is_answered<R, K: FnOnce(Vec<u8>) -> Result<R, String>>(
    reply: Result<ZomeCallResponse, String>,
    decode: K,
    result: Result<R, CrossCellError>,
) -> bool {
    match reply {
        Ok(resp) => is_handled(resp, decode, result),
        Err(message) => result == Err::<R, CrossCellError>(CrossCellError::NetworkError(message)),
    }
}

/// Turns the callee's answer into the caller's result. A successful answer is
/// decoded; a refusal keeps its four particulars; a network error and a failed
/// countersigning session both become a network error with their message.
pub fn handle_resp<R, K>(resp: ZomeCallResponse, decode: K) -> (result: Result<R, CrossCellError>) where
    K: FnOnce(Vec<u8>) -> Result<R, String>,

    requires
        forall|data: Vec<u8>| call_requires(decode, (data,)),
    ensures
        is_handled(resp, decode, result),
{
    match resp {
        ZomeCallResponse::Success(data) => {
            let ghost sent = data;
            let outcome = decode(data);
            let ghost got = outcome;
            let result = match outcome {
                Ok(value) => Ok(value),
                Err(message) => Err(CrossCellError::Serialization(message)),
            };
            assert(call_ensures(decode, (sent,), got) && result == decoded(got));
            result
        },
        ZomeCallResponse::Unauthorized(cell, zome, function, agent) => Err(
            CrossCellError::Unauthorized(cell, zome, function, agent),
        ),
        ZomeCallResponse::NetworkError(message) => Err(CrossCellError::NetworkError(message)),
        ZomeCallResponse::CountersigningSession(message) => Err(CrossCellError::NetworkError(message)),
    }
}

/// The call that an authorization asks for.
pub fn remote_call<I>(to_dna: &DnaHash, auth: &DNAConnectionAuth, payload: I) -> (call: OutboundCall<I>)
    ensures
        is_remote_call(call, *to_dna, *auth, payload),
{
    OutboundCall {
        to_cell: CallTargetCell::Other(
            CellId {
                dna_hash: DnaHash { bytes: copy_bytes(&to_dna.bytes) },
                agent_pub_key: AgentPubKey { bytes: copy_bytes(&auth.claim.grantor.bytes) },
            },
        ),
        zome_name: auth.zome_name.clone(),
        fn_name: auth.fn_name.clone(),
        cap_secret: Some(CapSecret { bytes: copy_bytes(&auth.claim.secret.bytes) }),
        payload,
    }
}

/// Whether `result` is a possible result of a call into a remote partition:
/// `NotConfigured` where no authorization is on the table, and otherwise what
/// the answer to the one call that the authorization asks for means.
pub open spec fn is_remote_result<I, R, D, K>(
    entries: Seq<AuthEntry>,
    this_zome: Seq<char>,
    to_dna: DnaHash,
    permission_id: Seq<char>,
    payload: I,
    dispatch: D,
    decode: K,
    result: Result<R, CrossCellError>,
) -> bool where
    D: FnOnce(OutboundCall<I>) -> Result<ZomeCallResponse, String>,
    K: FnOnce(Vec<u8>) -> Result<R, String>,
 {
    match resolved_auth(entries, to_dna.bytes@, permission_id) {
        None => {
            &&& result matches Err(CrossCellError::NotConfigured(caller, method))
            &&& caller@ == this_zome
            &&& method@ == permission_id
        },
        Some(auth) => exists|call: OutboundCall<I>, reply: Result<ZomeCallResponse, String>|
            {
                &&& is_remote_call(call, to_dna, auth, payload)
                &&& call_ensures(dispatch, (call,), reply)
                &&& is_answered(reply, decode, result)
            },
    }
}

/// Calls a function of a remote partition under a permission that was
/// negotiated with it. Without an authorization for the partition and the
/// permission nothing is sent and the call is `NotConfigured`. Otherwise one
/// call goes out, with the claim's secret, and its answer decides the result.
pub fn call_zome_method<I, R, D, K>(
    registry: &AuthRegistry,
    this_zome: &str,
    to_registered_dna: &DnaHash,
    remote_permission_id: &str,
    payload: I,
    dispatch: D,
    decode: K,
) -> (result: Result<R, CrossCellError>) where
    D: FnOnce(OutboundCall<I>) -> Result<ZomeCallResponse, String>,
    K: FnOnce(Vec<u8>) -> Result<R, String>,

    requires
        forall|call: OutboundCall<I>| call_requires(dispatch, (call,)),
        forall|data: Vec<u8>| call_requires(decode, (data,)),
    ensures
        is_remote_result(
            registry@,
            this_zome@,
            *to_registered_dna,
            remote_permission_id@,
            payload,
            dispatch,
            decode,
            result,
        ),
{
    match registry.resolve(to_registered_dna, remote_permission_id) {
        None => Err(CrossCellError::NotConfigured(this_zome.to_owned(), remote_permission_id.to_owned())),
        Some(auth) => {
            let call = remote_call(to_registered_dna, auth, payload);
            match dispatch(call) {
                Ok(resp) => handle_resp(resp, decode),
                Err(message) => Err(CrossCellError::NetworkError(message)),
            }
        },
    }
}

/// Calls a function of another module of the same cell. No secret is
/// presented. The module's name comes out of the cell's configuration by way
/// of `zome_name_from_config`; where the configuration is missing or names no
/// module, nothing is sent and the call is `NotConfigured`.
pub fn call_local_zome_method<C, F, I, R, D, K>(
    this_zome: &str,
    zome_props: Option<C>,
    zome_name_from_config: F,
    method_name: &str,
    payload: I,
    dispatch: D,
    decode: K,
) -> (result: Result<R, CrossCellError>) where
    F: FnOnce(C) -> Option<String>,
    D: FnOnce(OutboundCall<I>) -> Result<ZomeCallResponse, String>,
    K: FnOnce(Vec<u8>) -> Result<R, String>,

    requires
        forall|conf: C| call_requires(zome_name_from_config, (conf,)),
        forall|call: OutboundCall<I>| call_requires(dispatch, (call,)),
        forall|data: Vec<u8>| call_requires(decode, (data,)),
    ensures
        zome_props is None ==> {
            &&& result matches Err(CrossCellError::NotConfigured(caller, method))
            &&& caller@ == this_zome@
            &&& method@ == method_name@
        },
        zome_props matches Some(conf) ==> exists|named: Option<String>|
            {
                &&& call_ensures(zome_name_from_config, (conf,), named)
                &&& match named {
                    None => {
                        &&& result matches Err(CrossCellError::NotConfigured(caller, method))
                        &&& caller@ == this_zome@
                        &&& method@ == method_name@
                    },
                    Some(local_zome) => exists|call: OutboundCall<I>, reply: Result<ZomeCallResponse, String>|
                        {
                            &&& is_local_call(call, local_zome@, method_name@, payload)
                            &&& call_ensures(dispatch, (call,), reply)
                            &&& is_answered(reply, decode, result)
                        },
                }
            },
{
    match zome_props {
        None => Err(CrossCellError::NotConfigured(this_zome.to_owned(), method_name.to_owned())),
        Some(conf) => {
            match zome_name_from_config(conf) {
                None => Err(CrossCellError::NotConfigured(this_zome.to_owned(), method_name.to_owned())),
                Some(local_zome) => {
                    let call = OutboundCall {
                        to_cell: CallTargetCell::Local,
                        zome_name: local_zome,
                        fn_name: method_name.to_owned(),
                        cap_secret: None,
                        payload,
                    };
                    match dispatch(call) {
                        Ok(resp) => handle_resp(resp, decode),
                        Err(message) => Err(CrossCellError::NetworkError(message)),
                    }
                },
            }
        },
    }
}


/// The text that stands for a failed call.
pub open spec fn description(error: CrossCellError) -> Seq<char> {
    match error {
        CrossCellError::Serialization(message) => "response could not be decoded: "@ + message@,
        CrossCellError::NotConfigured(caller, method) => "nothing is configured for "@ + method@
            + " called from "@ + caller@,
        CrossCellError::Unauthorized(_, zome, function, _) => "not authorized to call "@ + zome@ + "::"@
            + function@,
        CrossCellError::NetworkError(message) => "network error: "@ + message@,
    }
}

impl CrossCellError {
    /// The text that stands for this failure. It begins with the kind of
    /// failure, so that the kind is never lost.
    pub fn describe(&self) -> (text: String)
        ensures
            text@ == description(*self),
    {
        match self {
            CrossCellError::Serialization(message) => {
                let mut text = String::from_str("response could not be decoded: ");
                text.append(message.as_str());
                text
            },
            CrossCellError::NotConfigured(caller, method) => {
                let mut text = String::from_str("nothing is configured for ");
                text.append(method.as_str());
                text.append(" called from ");
                text.append(caller.as_str());
                text
            },
            CrossCellError::Unauthorized(_, zome, function, _) => {
                let mut text = String::from_str("not authorized to call ");
                text.append(zome.as_str());
                text.append("::");
                text.append(function.as_str());
                text
            },
            CrossCellError::NetworkError(message) => {
                let mut text = String::from_str("network error: ");
                text.append(message.as_str());
                text
            },
        }
    }
}

} // verus!
