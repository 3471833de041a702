//! VPS instances: the client of the cloud provider's API, and the operations
//! that keep the local records in step with what the provider runs.
//!
//! The provider owns the state of an instance. A local record is a cache of
//! it, refreshed when an instance is created, when a lifecycle action has
//! been taken, and on demand; between refreshes the two may differ.

use crate::clock::{clock_reading, now, Timestamp};
use crate::ident::{fresh, is_random_id, new_id};
use crate::models::vps::{
    CreateVps, CreateVpsView, HetznerCreateServerRequest, HetznerCreateServerRequestView,
    HetznerPriceView, HetznerPublicNet, HetznerPublicNetView, HetznerServer, HetznerServerType,
    HetznerServerView, UpdateVps, UpdateVpsView, Vps, VpsView,
};
use crate::services::flow::{unexpected, unexpected_event, Action, ActionView, Event, EventView};
use crate::text::{decimal, int_text};
use crate::utils::errors::{outcome_view, AppError, AppErrorView};
use vstd::prelude::*;
use vstd::string::*;

verus! {

/// The HTTP methods that the client uses.
#[derive(Debug, Clone, Copy, PartialEq, Eq)]
pub enum HttpMethod {
    Get,
    Post,
    Delete,
}

/// An HTTP request, ready to be sent.
#[derive(Debug, Clone, PartialEq, Eq)]
pub struct HttpRequest {
    pub method: HttpMethod,
    pub url: String,
    /// Value of the `Authorization` header.
    pub authorization: String,
    /// Sent as JSON where present.
    pub body: Option<HetznerCreateServerRequest>,
}

/// Mathematical value of an [`HttpRequest`].
pub struct HttpRequestView {
    pub method: HttpMethod,
    pub url: Seq<char>,
    pub authorization: Seq<char>,
    pub body: Option<HetznerCreateServerRequestView>,
}

impl View for HttpRequest {
    type V = HttpRequestView;

    open spec fn view(&self) -> HttpRequestView {
        HttpRequestView {
            method: self.method,
            url: self.url@,
            authorization: self.authorization@,
            body: self.body.deep_view(),
        }
    }
}

impl DeepView for HttpRequest {
    type V = HttpRequestView;

    open spec fn deep_view(&self) -> HttpRequestView {
        self@
    }
}

/// What became of a request, as the transport reports it. `T` is what the
/// body of a successful response decodes to.
#[derive(Debug, PartialEq, Eq)]
pub enum HttpReply<T> {
    /// The request could not be sent, or no response arrived; `detail` is
    /// the transport's account.
    Unsent { detail: String },
    /// A response arrived. Its body is read once: as text where
    /// [`HetznerClient::is_success`] refuses the status, as JSON where it
    /// accepts it.
    Received {
        /// Status code.
        code: u16,
        /// Code and reason phrase, as the status line shows them.
        status: String,
        /// The body as text; empty where it was not read as text or could
        /// not be read.
        text: String,
        /// The body decoded as JSON of the expected shape, or the decoder's
        /// complaint; the complaint is empty where no decoding was tried.
        decoded: Result<T, String>,
    },
}

/// An operation on the provider's side.
#[derive(Debug, Clone, PartialEq, Eq)]
pub enum HetznerCall {
    CreateServer(HetznerCreateServerRequest),
    GetServer(i64),
    ListServers,
    DeleteServer(i64),
    PowerOn(i64),
    PowerOff(i64),
    Reboot(i64),
}

/// Mathematical value of a [`HetznerCall`].
pub enum HetznerCallView {
    CreateServer(HetznerCreateServerRequestView),
    GetServer(i64),
    ListServers,
    DeleteServer(i64),
    PowerOn(i64),
    PowerOff(i64),
    Reboot(i64),
}

impl View for HetznerCall {
    type V = HetznerCallView;

    open spec fn view(&self) -> HetznerCallView {
        match self {
            HetznerCall::CreateServer(request) => HetznerCallView::CreateServer(request@),
            HetznerCall::GetServer(id) => HetznerCallView::GetServer(*id),
            HetznerCall::ListServers => HetznerCallView::ListServers,
            HetznerCall::DeleteServer(id) => HetznerCallView::DeleteServer(*id),
            HetznerCall::PowerOn(id) => HetznerCallView::PowerOn(*id),
            HetznerCall::PowerOff(id) => HetznerCallView::PowerOff(*id),
            HetznerCall::Reboot(id) => HetznerCallView::Reboot(*id),
        }
    }
}

/// Path of an instance below the API's root.
pub open spec fn server_path(server_id: i64) -> Seq<char> {
    "/servers/"@ + int_text(server_id as int)
}

/// The request that carries a call: method, path below the API's root, and
/// body.
pub open spec fn call_request(token: Seq<char>, call: HetznerCallView) -> HttpRequestView {
    match call {
        HetznerCallView::CreateServer(request) => api_request(
            token,
            HttpMethod::Post,
            "/servers"@,
            Some(request),
        ),
        HetznerCallView::GetServer(id) => api_request(
            token,
            HttpMethod::Get,
            server_path(id),
            None,
        ),
        HetznerCallView::ListServers => api_request(token, HttpMethod::Get, "/servers"@, None),
        HetznerCallView::DeleteServer(id) => api_request(
            token,
            HttpMethod::Delete,
            server_path(id),
            None,
        ),
        HetznerCallView::PowerOn(id) => api_request(
            token,
            HttpMethod::Post,
            server_path(id) + "/actions/poweron"@,
            None,
        ),
        HetznerCallView::PowerOff(id) => api_request(
            token,
            HttpMethod::Post,
            server_path(id) + "/actions/poweroff"@,
            None,
        ),
        HetznerCallView::Reboot(id) => api_request(
            token,
            HttpMethod::Post,
            server_path(id) + "/actions/reboot"@,
            None,
        ),
    }
}

/// A request to the API: the endpoint appended to the API's root, and the
/// token presented as a bearer credential.
pub open spec fn api_request(
    token: Seq<char>,
    method: HttpMethod,
    endpoint: Seq<char>,
    body: Option<HetznerCreateServerRequestView>,
) -> HttpRequestView {
    HttpRequestView {
        method,
        url: "https://api.hetzner.cloud/v1"@ + endpoint,
        authorization: "Bearer "@ + token,
        body,
    }
}

/// Whether a response with status `code` is a success: the codes 200 to 299
/// are, and no other.
pub open spec fn success_code(code: u16) -> bool {
    200 <= code <= 299
}

/// Whether a response arrived with a status from 200 to 299 and a body that
/// decoded.
pub open spec fn delivered<T>(reply: HttpReply<T>) -> bool {
    match reply {
        HttpReply::Unsent { .. } => false,
        HttpReply::Received { code, decoded, .. } => success_code(code) && decoded is Ok,
    }
}

/// What a reply amounts to. The decoded value, where a response arrived
/// with a status from 200 to 299 and its body decoded. In every other case
/// an internal error, whose text says which of the three failures occurred:
/// no response, a status outside 200 to 299 whatever the body holds, or a
/// body that did not decode.
pub open spec fn reply_outcome<T>(reply: HttpReply<T>) -> Result<T, AppErrorView> {
    match reply {
        HttpReply::Unsent { detail } => Err(
            AppErrorView::InternalError("Hetzner API request failed: "@ + detail@),
        ),
        HttpReply::Received { code, status, text, decoded } => if !success_code(code) {
            Err(AppErrorView::InternalError("Hetzner API error "@ + status@ + ": "@ + text@))
        } else {
            match decoded {
                Ok(value) => Ok(value),
                Err(detail) => Err(
                    AppErrorView::InternalError("Failed to parse Hetzner response: "@ + detail@),
                ),
            }
        },
    }
}

/// Client of the provider's API. It holds the credential; sending is the
/// caller's part.
#[derive(Debug, Clone, PartialEq, Eq)]
pub struct HetznerClient {
    api_token: String,
}

impl HetznerClient {
    /// The credential that the client presents.
    pub closed spec fn token(&self) -> Seq<char> {
        self.api_token@
    }

    /// A client that presents `api_token`.
    pub fn new(api_token: String) -> (client: HetznerClient)
        ensures
            client.token() == api_token@,
    {
        HetznerClient { api_token }
    }

    fn request(
        &self,
        method: HttpMethod,
        endpoint: &str,
        body: Option<HetznerCreateServerRequest>,
    ) -> (request: HttpRequest)
        ensures
            request@ == api_request(self.token(), method, endpoint@, body.deep_view()),
    {
        let url = String::from_str("https://api.hetzner.cloud/v1").concat(endpoint);
        let authorization = String::from_str("Bearer ").concat(self.api_token.as_str());
        HttpRequest { method, url, authorization, body }
    }

    fn server_endpoint(server_id: i64, action: &str) -> (endpoint: String)
        ensures
            endpoint@ == server_path(server_id) + action@,
    {
        let endpoint = String::from_str("/servers/").concat(decimal(server_id).as_str()).concat(
            action,
        );
        assert(endpoint@ =~= server_path(server_id) + action@);
        endpoint
    }

    /// The request that creates an instance.
    pub fn create_server(&self, request: HetznerCreateServerRequest) -> (http: HttpRequest)
        ensures
            http@ == call_request(self.token(), HetznerCallView::CreateServer(request@)),
    {
        self.request(HttpMethod::Post, "/servers", Some(request))
    }

    /// The request that reads an instance's descriptor.
    pub fn get_server(&self, server_id: i64) -> (http: HttpRequest)
        ensures
            http@ == call_request(self.token(), HetznerCallView::GetServer(server_id)),
    {
        proof {
            reveal_strlit("");
        }
        let endpoint = Self::server_endpoint(server_id, "");
        assert(endpoint@ =~= server_path(server_id));
        self.request(HttpMethod::Get, endpoint.as_str(), None)
    }

    /// The request that lists the account's instances.
    pub fn list_servers(&self) -> (http: HttpRequest)
        ensures
            http@ == call_request(self.token(), HetznerCallView::ListServers),
    {
        self.request(HttpMethod::Get, "/servers", None)
    }

    /// The request that deletes an instance.
    pub fn delete_server(&self, server_id: i64) -> (http: HttpRequest)
        ensures
            http@ == call_request(self.token(), HetznerCallView::DeleteServer(server_id)),
    {
        proof {
            reveal_strlit("");
        }
        let endpoint = Self::server_endpoint(server_id, "");
        assert(endpoint@ =~= server_path(server_id));
        self.request(HttpMethod::Delete, endpoint.as_str(), None)
    }

    /// The request that powers an instance on. The provider acknowledges it
    /// before the instance runs.
    pub fn power_on(&self, server_id: i64) -> (http: HttpRequest)
        ensures
            http@ == call_request(self.token(), HetznerCallView::PowerOn(server_id)),
    {
        let endpoint = Self::server_endpoint(server_id, "/actions/poweron");
        self.request(HttpMethod::Post, endpoint.as_str(), None)
    }

    /// The request that powers an instance off.
    pub fn power_off(&self, server_id: i64) -> (http: HttpRequest)
        ensures
            http@ == call_request(self.token(), HetznerCallView::PowerOff(server_id)),
    {
        let endpoint = Self::server_endpoint(server_id, "/actions/poweroff");
        self.request(HttpMethod::Post, endpoint.as_str(), None)
    }

    /// The request that reboots an instance.
    pub fn reboot(&self, server_id: i64) -> (http: HttpRequest)
        ensures
            http@ == call_request(self.token(), HetznerCallView::Reboot(server_id)),
    {
        let endpoint = Self::server_endpoint(server_id, "/actions/reboot");
        self.request(HttpMethod::Post, endpoint.as_str(), None)
    }

    /// The request that carries `call`.
    pub fn prepare(&self, call: HetznerCall) -> (http: HttpRequest)
        ensures
            http@ == call_request(self.token(), call@),
    {
        match call {
            HetznerCall::CreateServer(request) => self.create_server(request),
            HetznerCall::GetServer(id) => self.get_server(id),
            HetznerCall::ListServers => self.list_servers(),
            HetznerCall::DeleteServer(id) => self.delete_server(id),
            HetznerCall::PowerOn(id) => self.power_on(id),
            HetznerCall::PowerOff(id) => self.power_off(id),
            HetznerCall::Reboot(id) => self.reboot(id),
        }
    }

    /// Whether a response with status `code` is read as a success: the codes
    /// 200 to 299 are, and no other.
    pub fn is_success(code: u16) -> (accepted: bool)
        ensures
            accepted == success_code(code),
    {
        200 <= code && code <= 299
    }

    /// Turns what the transport reports into the call's result. The result
    /// is the decoded value exactly where a response arrived, its status is
    /// a success and its body decoded. Every failure becomes an internal
    /// error: the client tells neither rate limits nor refused credentials
    /// apart, and retries nothing.
    pub fn response<T>(reply: HttpReply<T>) -> (outcome: Result<T, AppError>)
        ensures
            outcome_view(outcome) == reply_outcome(reply),
            outcome is Ok <==> delivered(reply),
            outcome matches Err(error) ==> error is InternalError,
    {
        match reply {
            HttpReply::Unsent { detail } => Err(
                AppError::InternalError(
                    String::from_str("Hetzner API request failed: ").concat(detail.as_str()),
                ),
            ),
            HttpReply::Received { code, status, text, decoded } => {
                if !Self::is_success(code) {
                    Err(
                        AppError::InternalError(
                            String::from_str("Hetzner API error ").concat(status.as_str()).concat(
                                ": ",
                            ).concat(text.as_str()),
                        ),
                    )
                } else {
                    match decoded {
                        Ok(value) => Ok(value),
                        Err(detail) => Err(
                            AppError::InternalError(
                                String::from_str("Failed to parse Hetzner response: ").concat(
                                    detail.as_str(),
                                ),
                            ),
                        ),
                    }
                }
            },
        }
    }
}

/// The error of a lookup that matched no VPS record.
pub open spec fn vps_not_found() -> AppErrorView {
    AppErrorView::NotFound("VPS not found"@)
}

fn not_found() -> (error: AppError)
    ensures
        error@ == vps_not_found(),
{
    AppError::NotFound("VPS not found".to_owned())
}

/// What a lookup amounts to: the row found, or not found.
pub open spec fn fetched_vps(found: Option<VpsView>) -> Result<VpsView, AppErrorView> {
    match found {
        Some(vps) => Ok(vps),
        None => Err(vps_not_found()),
    }
}

/// The public IPv4 address in a descriptor, where one is assigned.
pub open spec fn ipv4_of(net: HetznerPublicNetView) -> Option<Seq<char>> {
    match net.ipv4 {
        Some(address) => Some(address.ip),
        None => None,
    }
}

/// The public IPv6 network in a descriptor, where one is assigned.
pub open spec fn ipv6_of(net: HetznerPublicNetView) -> Option<Seq<char>> {
    match net.ipv6 {
        Some(address) => Some(address.ip),
        None => None,
    }
}

/// Whole gigabytes in `memory`: the quotient by 1024, rounded towards zero
/// and kept within the 32-bit range.
pub open spec fn ram_gb_of(memory: i64) -> i32 {
    let quotient = if memory >= 0 {
        memory / 1024
    } else {
        -((-memory) / 1024)
    };
    if quotient > i32::MAX {
        i32::MAX
    } else if quotient < i32::MIN {
        i32::MIN
    } else {
        quotient as i32
    }
}

/// The gross monthly price of the first price tier, where there is a tier.
pub open spec fn first_gross(prices: Seq<HetznerPriceView>) -> Option<Seq<char>> {
    if prices.len() > 0 {
        Some(prices[0].price_monthly.gross)
    } else {
        None
    }
}

/// The local record of an instance that the provider has just created.
pub open spec fn vps_of_server(
    id: u128,
    user_id: u128,
    server: HetznerServerView,
    created_at: Timestamp,
    updated_at: Timestamp,
) -> VpsView {
    VpsView {
        id,
        user_id,
        name: server.name,
        hetzner_id: Some(server.id),
        status: server.status,
        server_type: server.server_type.name,
        location: server.datacenter.location.name,
        image: server.image.name,
        ipv4: ipv4_of(server.public_net),
        ipv6: ipv6_of(server.public_net),
        cpu_cores: server.server_type.cores,
        ram_gb: ram_gb_of(server.server_type.memory),
        disk_gb: server.server_type.disk,
        monthly_cost: first_gross(server.server_type.prices),
        created_at,
        updated_at,
    }
}

/// The provider's create call for a payload: the payload's fields, and the
/// instance is started once created.
pub open spec fn create_request(payload: CreateVpsView) -> HetznerCreateServerRequestView {
    HetznerCreateServerRequestView {
        name: payload.name,
        server_type: payload.server_type,
        location: payload.location,
        image: payload.image,
        ssh_keys: payload.ssh_keys,
        user_data: payload.user_data,
        start_after_create: true,
    }
}

/// A VPS record after an update: name and status replaced where the payload
/// gives them, the time of change set, all else kept.
pub open spec fn updated_vps(
    vps: VpsView,
    payload: UpdateVpsView,
    updated_at: Timestamp,
) -> VpsView {
    VpsView {
        name: match payload.name {
            Some(name) => name,
            None => vps.name,
        },
        status: match payload.status {
            Some(status) => status.name(),
            None => vps.status,
        },
        updated_at,
        ..vps
    }
}

/// A call to the provider succeeds exactly where a response arrives with a
/// status from 200 to 299 and a body that decodes, and then with that
/// decoding. A status outside that range is an internal error whatever the
/// body holds, and so are a request that got no response and a body that did
/// not decode: no other kind of error comes of a call.
pub proof fn lemma_reply_outcome<T>(reply: HttpReply<T>)
    ensures
        reply_outcome(reply) is Ok <==> delivered(reply),
        delivered(reply) ==> reply_outcome(reply) == Ok::<T, AppErrorView>(reply->decoded->Ok_0),
        reply is Received && !success_code(reply->code) ==> reply_outcome(reply) is Err,
        reply_outcome(reply) matches Err(error) ==> error is InternalError,
{
}

/// What an update amounts to, as of `updated_at`: not found where the lookup
/// found no record, and the record with the update applied where it found
/// one.
pub open spec fn vps_update(
    found: Option<VpsView>,
    payload: UpdateVpsView,
    updated_at: Timestamp,
) -> Result<VpsView, AppErrorView> {
    match found {
        Some(vps) => Ok(updated_vps(vps, payload, updated_at)),
        None => Err(vps_not_found()),
    }
}

/// Whole gigabytes of memory in a descriptor's sizing.
pub fn ram_gb(memory: i64) -> (gb: i32)
    ensures
        gb == ram_gb_of(memory),
{
    let quotient: i64 = if memory >= 0 {
        memory / 1024
    } else if memory == i64::MIN {
        -0x20_0000_0000_0000
    } else {
        -((-memory) / 1024)
    };
    if quotient > 0x7fff_ffff {
        0x7fff_ffff
    } else if quotient < -0x8000_0000 {
        -0x8000_0000
    } else {
        quotient as i32
    }
}

fn public_ipv4(net: &HetznerPublicNet) -> (ip: Option<String>)
    ensures
        ip.deep_view() == ipv4_of(net@),
{
    match &net.ipv4 {
        Some(address) => Some(address.ip.clone()),
        None => None,
    }
}

fn public_ipv6(net: &HetznerPublicNet) -> (ip: Option<String>)
    ensures
        ip.deep_view() == ipv6_of(net@),
{
    match &net.ipv6 {
        Some(address) => Some(address.ip.clone()),
        None => None,
    }
}

fn monthly_cost(server_type: &HetznerServerType) -> (cost: Option<String>)
    ensures
        cost.deep_view() == first_gross(server_type@.prices),
{
    if server_type.prices.len() > 0 {
        Some(server_type.prices[0].price_monthly.gross.clone())
    } else {
        None
    }
}

/// The local record for an instance that the provider has created: remote
/// identifier, status and addresses as reported, sizing with memory in whole
/// gigabytes, and the first price tier's gross price where there is one.
pub fn new_vps(
    id: u128,
    user_id: u128,
    server: HetznerServer,
    created_at: Timestamp,
    updated_at: Timestamp,
) -> (vps: Vps)
    ensures
        vps@ == vps_of_server(id, user_id, server@, created_at, updated_at),
{
    let ipv4 = public_ipv4(&server.public_net);
    let ipv6 = public_ipv6(&server.public_net);
    let cost = monthly_cost(&server.server_type);
    Vps {
        id,
        user_id,
        name: server.name,
        hetzner_id: Some(server.id),
        status: server.status,
        server_type: server.server_type.name,
        location: server.datacenter.location.name,
        image: server.image.name,
        ipv4,
        ipv6,
        cpu_cores: server.server_type.cores,
        ram_gb: ram_gb(server.server_type.memory),
        disk_gb: server.server_type.disk,
        monthly_cost: cost,
        created_at,
        updated_at,
    }
}

/// The provider's create call for a payload.
pub fn hetzner_request(payload: CreateVps) -> (request: HetznerCreateServerRequest)
    ensures
        request@ == create_request(payload@),
{
    HetznerCreateServerRequest {
        name: payload.name,
        server_type: payload.server_type,
        location: payload.location,
        image: payload.image,
        ssh_keys: payload.ssh_keys,
        user_data: payload.user_data,
        start_after_create: true,
    }
}

/// The VPS record that a lookup found, or `NotFound` where it found none.
pub fn get_vps(found: Option<Vps>) -> (outcome: Result<Vps, AppError>)
    ensures
        match fetched_vps(found.deep_view()) {
            Ok(vps) => outcome is Ok && outcome->Ok_0@ == vps,
            Err(error) => outcome is Err && outcome->Err_0@ == error,
        },
        found matches Some(vps) ==> outcome == Ok::<Vps, AppError>(vps),
{
    match found {
        Some(vps) => Ok(vps),
        None => Err(not_found()),
    }
}

/// Applies an update to a VPS record, as of `updated_at`.
pub fn update_vps_at(vps: Vps, payload: UpdateVps, updated_at: Timestamp) -> (merged: Vps)
    ensures
        merged@ == updated_vps(vps@, payload@, updated_at),
{
    let mut merged = vps;
    match payload.name {
        Some(name) => {
            merged.name = name;
        },
        None => {},
    }
    match payload.status {
        Some(status) => {
            merged.status = status.as_str().to_owned();
        },
        None => {},
    }
    merged.updated_at = updated_at;
    merged
}

/// Updates a VPS record, given what the lookup of it found. A record that
/// does not exist is reported as not found, and nothing is to be written.
/// Otherwise the result is the row to write back: name, status and the time
/// of change are the columns written, and the time is read from the clock.
pub fn update_vps(found: Option<Vps>, payload: UpdateVps) -> (outcome: Result<Vps, AppError>)
    ensures
        exists|updated_at: Timestamp| #[trigger]
            clock_reading(updated_at) && match vps_update(found.deep_view(), payload@, updated_at) {
                Ok(merged) => outcome is Ok && outcome->Ok_0@ == merged,
                Err(error) => outcome is Err && outcome->Err_0@ == error,
            },
{
    match found {
        Some(vps) => {
            let updated_at = now();
            let merged = update_vps_at(vps, payload, updated_at);
            assert(clock_reading(updated_at) && vps_update(
                found.deep_view(),
                payload@,
                updated_at,
            ) == Ok::<VpsView, AppErrorView>(merged@));
            Ok(merged)
        },
        None => {
            let ghost epoch = Timestamp { secs: 0, nanos: 0 };
            let error = not_found();
            assert(clock_reading(epoch) && vps_update(found.deep_view(), payload@, epoch) == Err::<
                VpsView,
                AppErrorView,
            >(error@));
            Err(error)
        },
    }
}

/// Where a status synchronisation stands.
#[derive(Debug, PartialEq, Eq)]
pub enum SyncState {
    /// Not begun; `id` names the record to refresh.
    New { id: u128 },
    /// The record is being read.
    AwaitVps { id: u128 },
    /// The provider's descriptor is being fetched.
    AwaitProvider { id: u128 },
    /// The refreshed record is being written.
    AwaitStore,
    /// Over, with this result.
    Done(Result<Vps, AppError>),
}

/// Mathematical value of a [`SyncState`].
pub enum SyncStateView {
    New { id: u128 },
    AwaitVps { id: u128 },
    AwaitProvider { id: u128 },
    AwaitStore,
    Done(Result<VpsView, AppErrorView>),
}

impl View for SyncState {
    type V = SyncStateView;

    open spec fn view(&self) -> SyncStateView {
        match self {
            SyncState::New { id } => SyncStateView::New { id: *id },
            SyncState::AwaitVps { id } => SyncStateView::AwaitVps { id: *id },
            SyncState::AwaitProvider { id } => SyncStateView::AwaitProvider { id: *id },
            SyncState::AwaitStore => SyncStateView::AwaitStore,
            SyncState::Done(x) => SyncStateView::Done(
                match x {
                    Ok(value) => Ok(value@),
                    Err(error) => Err(error@),
                },
            ),
        }
    }
}

/// One step of a status synchronisation; `now` is the clock's reading, used
/// where the step stamps the record.
///
/// The record is read. Where it is linked to an instance, the provider's
/// descriptor is fetched, and status and addresses of the record are
/// overwritten with the descriptor's; every other field stays. Where it is
/// linked to none, the record is returned as read and the provider is not
/// called.
pub open spec fn sync_step(state: SyncStateView, event: EventView, now: Timestamp) -> (
    SyncStateView,
    ActionView,
) {
    match (state, event) {
        (SyncStateView::Done(result), _) => (SyncStateView::Done(result), ActionView::Finish),
        (_, EventView::Failed(error)) => (SyncStateView::Done(Err(error)), ActionView::Finish),
        (SyncStateView::New { id }, EventView::Start) => (
            SyncStateView::AwaitVps { id },
            ActionView::FindVps { id },
        ),
        (SyncStateView::AwaitVps { id }, EventView::VpsFound(None)) => (
            SyncStateView::Done(Err(vps_not_found())),
            ActionView::Finish,
        ),
        (SyncStateView::AwaitVps { id }, EventView::VpsFound(Some(vps))) => match vps.hetzner_id {
            Some(hetzner_id) => (
                SyncStateView::AwaitProvider { id },
                ActionView::Provider(HetznerCallView::GetServer(hetzner_id)),
            ),
            None => (SyncStateView::Done(Ok(vps)), ActionView::Finish),
        },
        (SyncStateView::AwaitProvider { id }, EventView::ProviderServer(server)) => (
            SyncStateView::AwaitStore,
            ActionView::RefreshVps {
                id,
                status: server.status,
                ipv4: ipv4_of(server.public_net),
                ipv6: ipv6_of(server.public_net),
                updated_at: now,
            },
        ),
        (SyncStateView::AwaitStore, EventView::VpsStored(vps)) => (
            SyncStateView::Done(Ok(vps)),
            ActionView::Finish,
        ),
        _ => (SyncStateView::Done(Err(unexpected_event())), ActionView::Finish),
    }
}

fn sync_failed(error: AppError) -> (step: (SyncState, Action))
    ensures
        step.0@ == SyncStateView::Done(Err(error@)),
        step.1@ == ActionView::Finish,
{
    (SyncState::Done(Err(error)), Action::Finish)
}

/// Refreshes a VPS record from the provider: one step of it. Begin with
/// [`SyncState::New`] and [`Event::Start`].
pub fn sync_vps_status(state: SyncState, event: Event) -> (step: (SyncState, Action))
    ensures
        exists|now: Timestamp| #[trigger]
            clock_reading(now) && (step.0@, step.1@) == sync_step(state@, event@, now),
{
    let stamps = matches!(state, SyncState::AwaitProvider { .. }) && matches!(
        event,
        Event::ProviderServer(_)
    );
    let stamp = if stamps {
        now()
    } else {
        Timestamp { secs: 0, nanos: 0 }
    };
    let step = sync_vps_status_at(state, event, stamp);
    assert(clock_reading(stamp) && (step.0@, step.1@) == sync_step(state@, event@, stamp));
    step
}

/// One step of a status synchronisation, with the clock's reading given.
pub fn sync_vps_status_at(
    state: SyncState,
    event: Event,
    now: Timestamp,
) -> (step: (SyncState, Action))
    ensures
        (step.0@, step.1@) == sync_step(state@, event@, now),
{
    match state {
        SyncState::Done(result) => (SyncState::Done(result), Action::Finish),
        SyncState::New { id } => match event {
            Event::Failed(error) => sync_failed(error),
            Event::Start => (SyncState::AwaitVps { id }, Action::FindVps { id }),
            _ => sync_failed(unexpected()),
        },
        SyncState::AwaitVps { id } => match event {
            Event::Failed(error) => sync_failed(error),
            Event::VpsFound(None) => sync_failed(not_found()),
            Event::VpsFound(Some(vps)) => match vps.hetzner_id {
                Some(hetzner_id) => (
                    SyncState::AwaitProvider { id },
                    Action::Provider(HetznerCall::GetServer(hetzner_id)),
                ),
                None => (SyncState::Done(Ok(vps)), Action::Finish),
            },
            _ => sync_failed(unexpected()),
        },
        SyncState::AwaitProvider { id } => match event {
            Event::Failed(error) => sync_failed(error),
            Event::ProviderServer(server) => {
                let ipv4 = public_ipv4(&server.public_net);
                let ipv6 = public_ipv6(&server.public_net);
                (
                    SyncState::AwaitStore,
                    Action::RefreshVps { id, status: server.status, ipv4, ipv6, updated_at: now },
                )
            },
            _ => sync_failed(unexpected()),
        },
        SyncState::AwaitStore => match event {
            Event::Failed(error) => sync_failed(error),
            Event::VpsStored(vps) => (SyncState::Done(Ok(vps)), Action::Finish),
            _ => sync_failed(unexpected()),
        },
    }
}

/// Where the creation of an instance stands.
#[derive(Debug, PartialEq, Eq)]
pub enum CreateVpsState {
    /// Not begun.
    New { user_id: u128, payload: CreateVps },
    /// The provider is creating the instance.
    AwaitProvider { user_id: u128 },
    /// The instance exists under `hetzner_id`; its record is being inserted.
    AwaitInsert { hetzner_id: i64 },
    /// The insert failed with `error`; the clean-up of the instance is
    /// being handed to a background task.
    AwaitDetach { error: AppError },
    /// Over, with this result.
    Done(Result<Vps, AppError>),
}

/// Mathematical value of a [`CreateVpsState`].
pub enum CreateVpsStateView {
    New { user_id: u128, payload: CreateVpsView },
    AwaitProvider { user_id: u128 },
    AwaitInsert { hetzner_id: i64 },
    AwaitDetach { error: AppErrorView },
    Done(Result<VpsView, AppErrorView>),
}

impl View for CreateVpsState {
    type V = CreateVpsStateView;

    open spec fn view(&self) -> CreateVpsStateView {
        match self {
            CreateVpsState::New { user_id, payload } => CreateVpsStateView::New {
                user_id: *user_id,
                payload: payload@,
            },
            CreateVpsState::AwaitProvider { user_id } => CreateVpsStateView::AwaitProvider {
                user_id: *user_id,
            },
            CreateVpsState::AwaitInsert { hetzner_id } => CreateVpsStateView::AwaitInsert {
                hetzner_id: *hetzner_id,
            },
            CreateVpsState::AwaitDetach { error } => CreateVpsStateView::AwaitDetach {
                error: error@,
            },
            CreateVpsState::Done(x) => CreateVpsStateView::Done(
                match x {
                    Ok(value) => Ok(value@),
                    Err(error) => Err(error@),
                },
            ),
        }
    }
}

/// One step of the creation of an instance; `id` is the identifier drawn for
/// the record, `created_at` and `updated_at` are readings of the clock.
///
/// The provider is asked to create and start the instance. Once it has, the
/// local record is inserted, linked to the instance by its remote
/// identifier. Where that insert fails, a delete of the same instance is
/// handed to a background task, and the insert's error is the result,
/// whether or not the task could be started: the instance may outlive the
/// failure.
pub open spec fn create_vps_step(
    state: CreateVpsStateView,
    event: EventView,
    id: u128,
    created_at: Timestamp,
    updated_at: Timestamp,
) -> (CreateVpsStateView, ActionView) {
    match (state, event) {
        (CreateVpsStateView::Done(result), _) => (
            CreateVpsStateView::Done(result),
            ActionView::Finish,
        ),
        (CreateVpsStateView::AwaitInsert { hetzner_id }, EventView::Failed(error)) => (
            CreateVpsStateView::AwaitDetach { error },
            ActionView::DetachProvider(HetznerCallView::DeleteServer(hetzner_id)),
        ),
        (CreateVpsStateView::AwaitDetach { error }, EventView::Detached) => (
            CreateVpsStateView::Done(Err(error)),
            ActionView::Finish,
        ),
        (CreateVpsStateView::AwaitDetach { error }, EventView::Failed(_)) => (
            CreateVpsStateView::Done(Err(error)),
            ActionView::Finish,
        ),
        (_, EventView::Failed(error)) => (CreateVpsStateView::Done(Err(error)), ActionView::Finish),
        (CreateVpsStateView::New { user_id, payload }, EventView::Start) => (
            CreateVpsStateView::AwaitProvider { user_id },
            ActionView::Provider(HetznerCallView::CreateServer(create_request(payload))),
        ),
        (CreateVpsStateView::AwaitProvider { user_id }, EventView::ProviderServer(server)) => (
            CreateVpsStateView::AwaitInsert { hetzner_id: server.id },
            ActionView::InsertVps {
                vps: vps_of_server(id, user_id, server, created_at, updated_at),
            },
        ),
        (CreateVpsStateView::AwaitInsert { hetzner_id }, EventView::VpsStored(vps)) => (
            CreateVpsStateView::Done(Ok(vps)),
            ActionView::Finish,
        ),
        _ => (CreateVpsStateView::Done(Err(unexpected_event())), ActionView::Finish),
    }
}

fn create_failed(error: AppError) -> (step: (CreateVpsState, Action))
    ensures
        step.0@ == CreateVpsStateView::Done(Err(error@)),
        step.1@ == ActionView::Finish,
{
    (CreateVpsState::Done(Err(error)), Action::Finish)
}

/// Creates an instance at the provider and its local record: one step of it.
/// Begin with [`CreateVpsState::New`] and [`Event::Start`].
pub fn create_vps(state: CreateVpsState, event: Event) -> (step: (CreateVpsState, Action))
    ensures
        exists|id: u128, created_at: Timestamp, updated_at: Timestamp| #[trigger]
            fresh(id, created_at, updated_at) && (step.0@, step.1@) == create_vps_step(
                state@,
                event@,
                id,
                created_at,
                updated_at,
            ),
{
    let inserts = matches!(state, CreateVpsState::AwaitProvider { .. }) && matches!(
        event,
        Event::ProviderServer(_)
    );
    let (id, created_at, updated_at) = if inserts {
        (new_id(), now(), now())
    } else {
        let epoch = Timestamp { secs: 0, nanos: 0 };
        assert(is_random_id(0x4000_8000_0000_0000_0000)) by (bit_vector);
        (0x4000_8000_0000_0000_0000, epoch, epoch)
    };
    let step = create_vps_with(state, event, id, created_at, updated_at);
    assert(fresh(id, created_at, updated_at) && (step.0@, step.1@) == create_vps_step(
        state@,
        event@,
        id,
        created_at,
        updated_at,
    ));
    step
}

/// One step of the creation of an instance, with the identifier for the
/// record and the clock's readings given.
pub fn create_vps_with(
    state: CreateVpsState,
    event: Event,
    id: u128,
    created_at: Timestamp,
    updated_at: Timestamp,
) -> (step: (CreateVpsState, Action))
    ensures
        (step.0@, step.1@) == create_vps_step(state@, event@, id, created_at, updated_at),
{
    match state {
        CreateVpsState::Done(result) => (CreateVpsState::Done(result), Action::Finish),
        CreateVpsState::New { user_id, payload } => match event {
            Event::Failed(error) => create_failed(error),
            Event::Start => (
                CreateVpsState::AwaitProvider { user_id },
                Action::Provider(HetznerCall::CreateServer(hetzner_request(payload))),
            ),
            _ => create_failed(unexpected()),
        },
        CreateVpsState::AwaitProvider { user_id } => match event {
            Event::Failed(error) => create_failed(error),
            Event::ProviderServer(server) => {
                let hetzner_id = server.id;
                let vps = new_vps(id, user_id, server, created_at, updated_at);
                (CreateVpsState::AwaitInsert { hetzner_id }, Action::InsertVps { vps })
            },
            _ => create_failed(unexpected()),
        },
        CreateVpsState::AwaitInsert { hetzner_id } => match event {
            Event::Failed(error) => (
                CreateVpsState::AwaitDetach { error },
                Action::DetachProvider(HetznerCall::DeleteServer(hetzner_id)),
            ),
            Event::VpsStored(vps) => (CreateVpsState::Done(Ok(vps)), Action::Finish),
            _ => create_failed(unexpected()),
        },
        CreateVpsState::AwaitDetach { error } => match event {
            Event::Failed(_) => create_failed(error),
            Event::Detached => create_failed(error),
            _ => create_failed(unexpected()),
        },
    }
}

/// A failed insert after a successful create always asks for the clean-up
/// of the very instance that was created, before the insert's error is
/// handed back; and on success the record is linked to that instance.
pub proof fn lemma_create_compensates(
    user_id: u128,
    server: HetznerServerView,
    error: AppErrorView,
    id: u128,
    created_at: Timestamp,
    updated_at: Timestamp,
)
    ensures
        ({
            let created = create_vps_step(
                CreateVpsStateView::AwaitProvider { user_id },
                EventView::ProviderServer(server),
                id,
                created_at,
                updated_at,
            );
            let failed = create_vps_step(
                created.0,
                EventView::Failed(error),
                id,
                created_at,
                updated_at,
            );
            let over = create_vps_step(failed.0, EventView::Detached, id, created_at, updated_at);
            &&& created.1 matches ActionView::InsertVps { vps }
            &&& vps.hetzner_id == Some(server.id)
            &&& vps.status == server.status
            &&& vps.ram_gb == ram_gb_of(server.server_type.memory)
            &&& failed.1 == ActionView::DetachProvider(HetznerCallView::DeleteServer(server.id))
            &&& over == (CreateVpsStateView::Done(Err(error)), ActionView::Finish)
        }),
{
}

/// Where the deletion of an instance stands.
#[derive(Debug, PartialEq, Eq)]
pub enum DeleteVpsState {
    /// Not begun; `id` names the record to delete.
    New { id: u128 },
    /// The record is being read.
    AwaitVps { id: u128 },
    /// The provider is deleting the instance.
    AwaitProvider { id: u128 },
    /// The record is being deleted.
    AwaitDelete,
    /// Over, with this result.
    Done(Result<(), AppError>),
}

/// Mathematical value of a [`DeleteVpsState`].
pub enum DeleteVpsStateView {
    New { id: u128 },
    AwaitVps { id: u128 },
    AwaitProvider { id: u128 },
    AwaitDelete,
    Done(Result<(), AppErrorView>),
}

impl View for DeleteVpsState {
    type V = DeleteVpsStateView;

    open spec fn view(&self) -> DeleteVpsStateView {
        match self {
            DeleteVpsState::New { id } => DeleteVpsStateView::New { id: *id },
            DeleteVpsState::AwaitVps { id } => DeleteVpsStateView::AwaitVps { id: *id },
            DeleteVpsState::AwaitProvider { id } => DeleteVpsStateView::AwaitProvider { id: *id },
            DeleteVpsState::AwaitDelete => DeleteVpsStateView::AwaitDelete,
            DeleteVpsState::Done(x) => DeleteVpsStateView::Done(
                match x {
                    Ok(value) => Ok(()),
                    Err(error) => Err(error@),
                },
            ),
        }
    }
}

/// One step of the deletion of an instance.
///
/// The record is read; one that does not exist is reported as not found.
/// Where the record is linked to an instance, the provider deletes that
/// instance first, and its refusal ends the operation with the record kept.
/// Then the record is deleted; a delete that touches no row is reported as
/// not found, never as a success.
pub open spec fn delete_vps_step(state: DeleteVpsStateView, event: EventView) -> (
    DeleteVpsStateView,
    ActionView,
) {
    match (state, event) {
        (DeleteVpsStateView::Done(result), _) => (
            DeleteVpsStateView::Done(result),
            ActionView::Finish,
        ),
        (_, EventView::Failed(error)) => (DeleteVpsStateView::Done(Err(error)), ActionView::Finish),
        (DeleteVpsStateView::New { id }, EventView::Start) => (
            DeleteVpsStateView::AwaitVps { id },
            ActionView::FindVps { id },
        ),
        (DeleteVpsStateView::AwaitVps { id }, EventView::VpsFound(None)) => (
            DeleteVpsStateView::Done(Err(vps_not_found())),
            ActionView::Finish,
        ),
        (DeleteVpsStateView::AwaitVps { id }, EventView::VpsFound(Some(vps))) => match vps
            .hetzner_id {
            Some(hetzner_id) => (
                DeleteVpsStateView::AwaitProvider { id },
                ActionView::Provider(HetznerCallView::DeleteServer(hetzner_id)),
            ),
            None => (DeleteVpsStateView::AwaitDelete, ActionView::DeleteVps { id }),
        },
        (DeleteVpsStateView::AwaitProvider { id }, EventView::ProviderDone) => (
            DeleteVpsStateView::AwaitDelete,
            ActionView::DeleteVps { id },
        ),
        (DeleteVpsStateView::AwaitDelete, EventView::Executed { rows_affected }) => (
            DeleteVpsStateView::Done(
                if rows_affected == 0 {
                    Err(vps_not_found())
                } else {
                    Ok(())
                },
            ),
            ActionView::Finish,
        ),
        _ => (DeleteVpsStateView::Done(Err(unexpected_event())), ActionView::Finish),
    }
}

fn delete_failed(error: AppError) -> (step: (DeleteVpsState, Action))
    ensures
        step.0@ == DeleteVpsStateView::Done(Err(error@)),
        step.1@ == ActionView::Finish,
{
    (DeleteVpsState::Done(Err(error)), Action::Finish)
}

/// Deletes an instance at the provider and its local record: one step of it.
/// Begin with [`DeleteVpsState::New`] and [`Event::Start`].
pub fn delete_vps(state: DeleteVpsState, event: Event) -> (step: (DeleteVpsState, Action))
    ensures
        (step.0@, step.1@) == delete_vps_step(state@, event@),
{
    match state {
        DeleteVpsState::Done(result) => (DeleteVpsState::Done(result), Action::Finish),
        DeleteVpsState::New { id } => match event {
            Event::Failed(error) => delete_failed(error),
            Event::Start => (DeleteVpsState::AwaitVps { id }, Action::FindVps { id }),
            _ => delete_failed(unexpected()),
        },
        DeleteVpsState::AwaitVps { id } => match event {
            Event::Failed(error) => delete_failed(error),
            Event::VpsFound(None) => delete_failed(not_found()),
            Event::VpsFound(Some(vps)) => match vps.hetzner_id {
                Some(hetzner_id) => (
                    DeleteVpsState::AwaitProvider { id },
                    Action::Provider(HetznerCall::DeleteServer(hetzner_id)),
                ),
                None => (DeleteVpsState::AwaitDelete, Action::DeleteVps { id }),
            },
            _ => delete_failed(unexpected()),
        },
        DeleteVpsState::AwaitProvider { id } => match event {
            Event::Failed(error) => delete_failed(error),
            Event::ProviderDone => (DeleteVpsState::AwaitDelete, Action::DeleteVps { id }),
            _ => delete_failed(unexpected()),
        },
        DeleteVpsState::AwaitDelete => match event {
            Event::Failed(error) => delete_failed(error),
            Event::Executed { rows_affected } => if rows_affected == 0 {
                delete_failed(not_found())
            } else {
                (DeleteVpsState::Done(Ok(())), Action::Finish)
            },
            _ => delete_failed(unexpected()),
        },
    }
}

/// Updating a VPS record that does not exist is reported as not found,
/// whatever the update asks for and whenever it is made; updating one that
/// exists succeeds.
pub proof fn lemma_update_missing(vps: VpsView, payload: UpdateVpsView, updated_at: Timestamp)
    ensures
        vps_update(None, payload, updated_at) == Err::<VpsView, AppErrorView>(vps_not_found()),
        vps_not_found() is NotFound,
        vps_update(Some(vps), payload, updated_at) is Ok,
{
}

/// A failure ends a synchronisation and a deletion with that very error,
/// wherever they stand. It ends a creation too, except where the instance
/// exists and its record could not be inserted: there the clean-up is asked
/// for first, and the error of the insert is the one handed back.
pub proof fn lemma_failures_propagate(
    sync: SyncStateView,
    create: CreateVpsStateView,
    delete: DeleteVpsStateView,
    error: AppErrorView,
    id: u128,
    now: Timestamp,
)
    ensures
        !(sync is Done) ==> sync_step(sync, EventView::Failed(error), now) == (
            SyncStateView::Done(Err(error)),
            ActionView::Finish,
        ),
        !(delete is Done) ==> delete_vps_step(delete, EventView::Failed(error)) == (
            DeleteVpsStateView::Done(Err(error)),
            ActionView::Finish,
        ),
        !(create is Done) && !(create is AwaitInsert) && !(create is AwaitDetach)
            ==> create_vps_step(create, EventView::Failed(error), id, now, now) == (
            CreateVpsStateView::Done(Err(error)),
            ActionView::Finish,
        ),
        create matches CreateVpsStateView::AwaitDetach { error: first } ==> create_vps_step(
            create,
            EventView::Failed(error),
            id,
            now,
            now,
        ) == (CreateVpsStateView::Done(Err(first)), ActionView::Finish),
{
}

/// A VPS record that the store returns for the identifier under which it
/// was just stored is fetched as the very record that the creation returned.
pub proof fn lemma_vps_read_after_write(
    hetzner_id: i64,
    stored: VpsView,
    id: u128,
    created_at: Timestamp,
    updated_at: Timestamp,
)
    ensures
        create_vps_step(
            CreateVpsStateView::AwaitInsert { hetzner_id },
            EventView::VpsStored(stored),
            id,
            created_at,
            updated_at,
        ).0 == CreateVpsStateView::Done(fetched_vps(Some(stored))),
{
}

/// Synchronising a record that is linked to no instance returns it
/// unchanged, and none of its steps calls the provider or writes to the
/// store.
pub proof fn lemma_sync_unlinked(id: u128, vps: VpsView, now: Timestamp)
    requires
        vps.hetzner_id is None,
    ensures
        ({
            let begun = sync_step(SyncStateView::New { id }, EventView::Start, now);
            let found = sync_step(begun.0, EventView::VpsFound(Some(vps)), now);
            &&& begun == (SyncStateView::AwaitVps { id }, ActionView::FindVps { id })
            &&& found == (SyncStateView::Done(Ok(vps)), ActionView::Finish)
            &&& !begun.1.calls_provider() && !begun.1.writes_store()
            &&& !found.1.calls_provider() && !found.1.writes_store()
        }),
{
}

/// Deleting a record that does not exist is reported as not found, whether
/// the lookup finds no row or the delete touches none.
pub proof fn lemma_delete_missing(id: u128)
    ensures
        delete_vps_step(DeleteVpsStateView::AwaitVps { id }, EventView::VpsFound(None)) == (
            DeleteVpsStateView::Done(Err(vps_not_found())),
            ActionView::Finish,
        ),
        delete_vps_step(DeleteVpsStateView::AwaitDelete, EventView::Executed { rows_affected: 0 })
            == (DeleteVpsStateView::Done(Err(vps_not_found())), ActionView::Finish),
{
}

} // verus!
