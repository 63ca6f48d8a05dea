//! The configuration and the request that publishes a new address.
use vstd::prelude::*;

verus! {

/// The time to live, in seconds, given to the published record.
pub const RECORD_TTL: u32 = 300;

/// Everything the updater is told once at startup; never changed afterwards.
#[derive(Clone, Debug)]
pub struct Config {
    /// Interfaces whose name starts with this are candidates.
    pub interface_prefix: String,
    /// The account the provider's API is called as.
    pub account_id: String,
    /// The token that authenticates the account.
    pub api_token: String,
    /// The provider's identifier of the DNS zone.
    pub zone_id: String,
    /// The provider's identifier of the record within the zone.
    pub record_id: String,
    /// The DNS name the record is for.
    pub record_name: String,
    /// Where the last published address is kept.
    pub state_path: String,
    /// How long to wait between cycles.
    pub interval_secs: u64,
}

/// The record description sent to the provider.
#[derive(Clone, Debug)]
pub struct DnsRecordUpdate {
    pub ttl: u32,
    pub record_type: String,
    pub name: String,
    pub content: String,
}

/// A complete update: where it goes, whom it is sent as, and what it says.
#[derive(Clone, Debug)]
pub struct UpdateRequest {
    pub url: String,
    pub account_id: String,
    pub api_token: String,
    pub body: DnsRecordUpdate,
}

/// The endpoint that updates record `record_id` of zone `zone_id`.
pub open spec fn update_url_spec(zone_id: Seq<char>, record_id: Seq<char>) -> Seq<char> {
    "https://api.cloudflare.com/client/v4/zones/"@ + zone_id + "/dns_records/"@ + record_id
}

/// `body` gives record `name` the AAAA content `address` with the fixed ttl.
pub open spec fn is_record_for(body: DnsRecordUpdate, name: Seq<char>, address: Seq<char>) -> bool {
    &&& body.ttl == RECORD_TTL
    &&& body.record_type@ == "AAAA"@
    &&& body.name@ == name
    &&& body.content@ == address
}

/// `req` is the update that publishes `address` under `cfg`.
pub open spec fn is_request_for(cfg: Config, req: UpdateRequest, address: Seq<char>) -> bool {
    &&& req.url@ == update_url_spec(cfg.zone_id@, cfg.record_id@)
    &&& req.account_id@ == cfg.account_id@
    &&& req.api_token@ == cfg.api_token@
    &&& is_record_for(req.body, cfg.record_name@, address)
}

impl DnsRecordUpdate {
    /// The AAAA record `name` with content `address` and the fixed ttl.
    pub fn new(name: &str, address: &str) -> (r: DnsRecordUpdate)
        ensures
            is_record_for(r, name@, address@),
    {
        DnsRecordUpdate {
            ttl: RECORD_TTL,
            record_type: String::from_str("AAAA"),
            name: String::from_str(name),
            content: String::from_str(address),
        }
    }
}

/// The endpoint that updates record `record_id` of zone `zone_id`.
pub fn update_url(zone_id: &str, record_id: &str) -> (r: String)
    ensures
        r@ == update_url_spec(zone_id@, record_id@),
{
    let mut url = String::from_str("https://api.cloudflare.com/client/v4/zones/");
    url.append(zone_id);
    url.append("/dns_records/");
    url.append(record_id);
    url
}

/// The update that publishes `address` under `cfg`.
pub fn build_update(cfg: &Config, address: &str) -> (r: UpdateRequest)
    ensures
        is_request_for(*cfg, r, address@),
{
    UpdateRequest {
        url: update_url(cfg.zone_id.as_str(), cfg.record_id.as_str()),
        account_id: cfg.account_id.clone(),
        api_token: cfg.api_token.clone(),
        body: DnsRecordUpdate::new(cfg.record_name.as_str(), address),
    }
}

} // verus!
