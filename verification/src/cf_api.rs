//! The provider's data model, the requests that the updater sends and the
//! reading of the provider's answers.

use vstd::prelude::*;

verus! {

/// A diagnostic that the provider attaches to an answer.
#[derive(Debug, PartialEq, Eq)]
pub struct CFMessage {
    pub code: u32,
    pub message: String,
}

/// A [`CFMessage`] as a mathematical value.
pub struct MessageView {
    pub code: u32,
    pub message: Seq<char>,
}

impl View for CFMessage {
    type V = MessageView;

    open spec fn view(&self) -> MessageView {
        MessageView { code: self.code, message: self.message@ }
    }
}

impl DeepView for CFMessage {
    type V = MessageView;

    open spec fn deep_view(&self) -> MessageView {
        self@
    }
}

impl Clone for CFMessage {
    fn clone(&self) -> (r: Self)
        ensures
            r == *self,
    {
        CFMessage { code: self.code, message: self.message.clone() }
    }
}

/// The provider's administrative container for the records of one domain.
#[derive(Debug, PartialEq, Eq)]
pub struct CFZone {
    pub id: String,
    pub name: String,
}

/// A [`CFZone`] as a mathematical value.
pub struct ZoneView {
    pub id: Seq<char>,
    pub name: Seq<char>,
}

impl View for CFZone {
    type V = ZoneView;

    open spec fn view(&self) -> ZoneView {
        ZoneView { id: self.id@, name: self.name@ }
    }
}

impl DeepView for CFZone {
    type V = ZoneView;

    open spec fn deep_view(&self) -> ZoneView {
        self@
    }
}

impl Clone for CFZone {
    fn clone(&self) -> (r: Self)
        ensures
            r == *self,
    {
        CFZone { id: self.id.clone(), name: self.name.clone() }
    }
}

/// The kind of address that a record holds.
#[derive(Clone, Copy, Debug, PartialEq, Eq, Structural)]
pub enum CFRecordType {
    A,
    AAAA,
}

impl CFRecordType {
    /// The name by which the provider knows this kind of record.
    pub open spec fn label(self) -> Seq<char> {
        match self {
            CFRecordType::A => "A"@,
            CFRecordType::AAAA => "AAAA"@,
        }
    }

    /// The name by which the provider knows this kind of record.
    pub fn as_str(&self) -> (r: &'static str)
        ensures
            r@ == self.label(),
    {
        match self {
            CFRecordType::A => "A",
            CFRecordType::AAAA => "AAAA",
        }
    }
}

/// One DNS record as the provider stores it.
#[derive(Debug, PartialEq, Eq)]
pub struct CFDnsRecord {
    pub type_: CFRecordType,
    pub id: String,
    pub name: String,
    pub content: String,
    pub ttl: u32,
}

/// A [`CFDnsRecord`] as a mathematical value.
pub struct DnsRecordView {
    pub type_: CFRecordType,
    pub id: Seq<char>,
    pub name: Seq<char>,
    pub content: Seq<char>,
    pub ttl: u32,
}

impl DnsRecordView {
    /// This record with its content replaced; everything else is kept.
    pub open spec fn with_content(self, content: Seq<char>) -> DnsRecordView {
        DnsRecordView { content, ..self }
    }
}

impl View for CFDnsRecord {
    type V = DnsRecordView;

    open spec fn view(&self) -> DnsRecordView {
        DnsRecordView {
            type_: self.type_,
            id: self.id@,
            name: self.name@,
            content: self.content@,
            ttl: self.ttl,
        }
    }
}

impl DeepView for CFDnsRecord {
    type V = DnsRecordView;

    open spec fn deep_view(&self) -> DnsRecordView {
        self@
    }
}

impl Clone for CFDnsRecord {
    fn clone(&self) -> (r: Self)
        ensures
            r == *self,
    {
        CFDnsRecord {
            type_: self.type_,
            id: self.id.clone(),
            name: self.name.clone(),
            content: self.content.clone(),
            ttl: self.ttl,
        }
    }
}

impl CFDnsRecord {
    /// The record that an update sends: this one with `content` in place of
    /// its own.
    pub fn with_content(self, content: String) -> (r: CFDnsRecord)
        ensures
            r@ == self@.with_content(content@),
            r.id == self.id,
            r.name == self.name,
            r.type_ == self.type_,
            r.ttl == self.ttl,
            r.content == content,
    {
        CFDnsRecord { content, ..self }
    }
}

/// The envelope in which the provider wraps every answer.
#[derive(Debug, PartialEq, Eq)]
pub struct CFResponse<T> {
    pub errors: Vec<CFMessage>,
    pub messages: Vec<CFMessage>,
    pub success: bool,
    pub result: Option<T>,
}

/// A [`CFResponse`] as a mathematical value, over the view of its result.
pub struct ResponseView<R> {
    pub errors: Seq<MessageView>,
    pub messages: Seq<MessageView>,
    pub success: bool,
    pub result: Option<R>,
}

impl<T: DeepView> View for CFResponse<T> {
    type V = ResponseView<T::V>;

    open spec fn view(&self) -> ResponseView<T::V> {
        ResponseView {
            errors: self.errors.deep_view(),
            messages: self.messages.deep_view(),
            success: self.success,
            result: self.result.deep_view(),
        }
    }
}

impl<T: Clone> Clone for CFResponse<T> {
    fn clone(&self) -> (r: Self)
        ensures
            r.errors@ == self.errors@,
            r.messages@ == self.messages@,
            r.success == self.success,
            match self.result {
                Some(result) => r.result matches Some(copy) && cloned(result, copy),
                None => r.result is None,
            },
    {
        CFResponse {
            errors: self.errors.clone(),
            messages: self.messages.clone(),
            success: self.success,
            result: self.result.clone(),
        }
    }
}

/// Why an answer of the provider could not be used.
#[derive(Debug, PartialEq, Eq)]
pub enum ProviderError<T> {
    /// The envelope reports failure; these are the provider's diagnostics.
    Rejected(Vec<CFMessage>),
    /// The envelope reports success and carries no result.
    NoResult,
    /// A lookup matched no item, or more than one; these are its matches.
    NotExactlyOne(Vec<T>),
}

impl<T: Clone> Clone for ProviderError<T> {
    fn clone(&self) -> (r: Self)
        ensures
            match self {
                ProviderError::Rejected(errors) => r matches ProviderError::Rejected(copy)
                    && copy@ == errors@,
                ProviderError::NoResult => r is NoResult,
                ProviderError::NotExactlyOne(found) => r matches ProviderError::NotExactlyOne(copy)
                    && copy@.len() == found@.len() && forall|i: int|
                    0 <= i < found@.len() ==> cloned(found@[i], #[trigger] copy@[i]),
            },
    {
        match self {
            ProviderError::Rejected(errors) => ProviderError::Rejected(errors.clone()),
            ProviderError::NoResult => ProviderError::NoResult,
            ProviderError::NotExactlyOne(found) => ProviderError::NotExactlyOne(found.clone()),
        }
    }
}

/// A [`ProviderError`] as a mathematical value.
pub enum ProviderErrorView<R> {
    Rejected(Seq<MessageView>),
    NoResult,
    NotExactlyOne(Seq<R>),
}

impl<T: DeepView> View for ProviderError<T> {
    type V = ProviderErrorView<T::V>;

    open spec fn view(&self) -> ProviderErrorView<T::V> {
        match self {
            ProviderError::Rejected(errors) => ProviderErrorView::Rejected(errors.deep_view()),
            ProviderError::NoResult => ProviderErrorView::NoResult,
            ProviderError::NotExactlyOne(found) => ProviderErrorView::NotExactlyOne(
                found.deep_view(),
            ),
        }
    }
}

/// What a lookup makes of the provider's answer: the single item that
/// matched, and a failure for every other answer.
pub open spec fn exactly_one<R>(resp: ResponseView<Seq<R>>) -> Result<R, ProviderErrorView<R>> {
    if !resp.success {
        Err(ProviderErrorView::Rejected(resp.errors))
    } else {
        match resp.result {
            None => Err(ProviderErrorView::NoResult),
            Some(found) => if found.len() == 1 {
                Ok(found[0])
            } else {
                Err(ProviderErrorView::NotExactlyOne(found))
            },
        }
    }
}

/// A lookup yields an item where the answer reports success and holds a
/// single item, and nowhere else; the item that it yields is that one.
pub proof fn lemma_exactly_one<R>(resp: ResponseView<Seq<R>>)
    ensures
        exactly_one(resp) is Ok <==> resp.success && resp.result is Some && resp.result->0.len()
            == 1,
        exactly_one(resp) matches Ok(item) ==> item == resp.result->0[0],
{
}

impl<T: DeepView> CFResponse<Vec<T>> {
    /// Reads the answer to a lookup, which must have matched exactly one item.
    pub fn exactly_one(self) -> (r: Result<T, ProviderError<T>>)
        ensures
            match exactly_one(self@) {
                Ok(item) => r matches Ok(v) && v.deep_view() == item,
                Err(e) => r matches Err(x) && x@ == e,
            },
            r matches Ok(v) ==> self.result matches Some(found) && v == found@[0],
    {
        if !self.success {
            return Err(ProviderError::Rejected(self.errors));
        }
        match self.result {
            None => Err(ProviderError::NoResult),
            Some(found) => {
                let mut found = found;
                if found.len() == 1 {
                    Ok(found.pop().unwrap())
                } else {
                    Err(ProviderError::NotExactlyOne(found))
                }
            },
        }
    }
}

/// What an update makes of the provider's answer: the record as the
/// provider now holds it, or the provider's refusal.
pub open spec fn updated<R>(resp: ResponseView<R>) -> Result<R, ProviderErrorView<R>>
    recommends
        resp.success ==> resp.result is Some,
{
    if !resp.success {
        Err(ProviderErrorView::Rejected(resp.errors))
    } else {
        Ok(resp.result->0)
    }
}

/// Reads the answer to a zone lookup by name. The zone is returned as the
/// provider sent it, and only if it is the single match.
pub fn get_zone_by_name(resp: CFResponse<Vec<CFZone>>) -> (r: Result<
    CFZone,
    ProviderError<CFZone>,
>)
    ensures
        match exactly_one(resp@) {
            Ok(zone) => r matches Ok(z) && z@ == zone,
            Err(e) => r matches Err(x) && x@ == e,
        },
        resp.result matches Some(found) ==> if resp.success && found@.len() == 1 {
            r == Ok::<CFZone, ProviderError<CFZone>>(found@[0])
        } else {
            r is Err
        },
{
    resp.exactly_one()
}

/// Reads the answer to a record lookup by zone, name and type. The record is
/// returned as the provider sent it, and only if it is the single match.
pub fn get_dns_record(resp: CFResponse<Vec<CFDnsRecord>>) -> (r: Result<
    CFDnsRecord,
    ProviderError<CFDnsRecord>,
>)
    ensures
        match exactly_one(resp@) {
            Ok(record) => r matches Ok(v) && v@ == record,
            Err(e) => r matches Err(x) && x@ == e,
        },
        resp.result matches Some(found) ==> if resp.success && found@.len() == 1 {
            r == Ok::<CFDnsRecord, ProviderError<CFDnsRecord>>(found@[0])
        } else {
            r is Err
        },
{
    resp.exactly_one()
}

/// Reads the answer to an update: the record as the provider holds it after
/// the update, or the diagnostics with which the provider refused.
///
/// An envelope that reports success carries the updated record; one that
/// reports success without it is not an answer to an update.
pub fn update_dns_record(resp: CFResponse<CFDnsRecord>) -> (r: Result<
    CFDnsRecord,
    ProviderError<CFDnsRecord>,
>)
    requires
        resp.success ==> resp.result is Some,
    ensures
        match updated(resp@) {
            Ok(record) => r matches Ok(v) && v@ == record,
            Err(e) => r matches Err(x) && x@ == e,
        },
        resp.success ==> r == Ok::<CFDnsRecord, ProviderError<CFDnsRecord>>(resp.result->0),
{
    if !resp.success {
        return Err(ProviderError::Rejected(resp.errors));
    }
    Ok(resp.result.unwrap())
}

/// How a request is sent.
#[derive(Clone, Copy, Debug, PartialEq, Eq, Structural)]
pub enum Method {
    Get,
    Patch,
}

/// One authenticated call of the provider's API, ready to be sent: the
/// bearer token goes into the `Authorization` header, the body, where there
/// is one, is sent as JSON.
#[derive(Debug, PartialEq, Eq)]
pub struct ApiRequest {
    pub method: Method,
    pub url: String,
    pub token: String,
    pub body: Option<CFDnsRecord>,
}

/// An [`ApiRequest`] as a mathematical value.
pub struct ApiRequestView {
    pub method: Method,
    pub url: Seq<char>,
    pub token: Seq<char>,
    pub body: Option<DnsRecordView>,
}

impl View for ApiRequest {
    type V = ApiRequestView;

    open spec fn view(&self) -> ApiRequestView {
        ApiRequestView {
            method: self.method,
            url: self.url@,
            token: self.token@,
            body: match self.body {
                Some(record) => Some(record@),
                None => None,
            },
        }
    }
}

/// Where the zones of a given name are listed.
pub open spec fn zones_url(zone: Seq<char>) -> Seq<char> {
    "https://api.cloudflare.com/client/v4/zones?name="@ + zone
}

/// Where the records of a zone with a given name and type are listed.
pub open spec fn dns_records_url(
    zone_id: Seq<char>,
    domain: Seq<char>,
    record_type: CFRecordType,
) -> Seq<char> {
    "https://api.cloudflare.com/client/v4/zones/"@ + zone_id + "/dns_records?name="@ + domain
        + "&type="@ + record_type.label()
}

/// Where one record of a zone lives.
pub open spec fn dns_record_url(zone_id: Seq<char>, record_id: Seq<char>) -> Seq<char> {
    "https://api.cloudflare.com/client/v4/zones/"@ + zone_id + "/dns_records/"@ + record_id
}

/// The lookup of a zone by its exact name.
pub open spec fn zone_lookup(token: Seq<char>, zone: Seq<char>) -> ApiRequestView {
    ApiRequestView { method: Method::Get, url: zones_url(zone), token, body: None }
}

/// The lookup of a record by zone, name and type.
pub open spec fn record_lookup(
    token: Seq<char>,
    zone_id: Seq<char>,
    domain: Seq<char>,
    record_type: CFRecordType,
) -> ApiRequestView {
    ApiRequestView {
        method: Method::Get,
        url: dns_records_url(zone_id, domain, record_type),
        token,
        body: None,
    }
}

/// The partial update that replaces a record, found by zone and by its own
/// id, with the record given.
pub open spec fn record_update(
    token: Seq<char>,
    zone_id: Seq<char>,
    record: DnsRecordView,
) -> ApiRequestView {
    ApiRequestView {
        method: Method::Patch,
        url: dns_record_url(zone_id, record.id),
        token,
        body: Some(record),
    }
}

/// Builds the lookup of the zone named `zone`.
pub fn zone_request(cf_token: &str, zone: &str) -> (r: ApiRequest)
    ensures
        r@ == zone_lookup(cf_token@, zone@),
{
    let mut url = String::from_str("https://api.cloudflare.com/client/v4/zones?name=");
    url.append(zone);
    ApiRequest { method: Method::Get, url, token: String::from_str(cf_token), body: None }
}

/// Builds the lookup of the record of type `record_type` that `domain` has
/// in the zone `zone_id`.
pub fn record_request(
    cf_token: &str,
    zone_id: &str,
    domain: &str,
    record_type: CFRecordType,
) -> (r: ApiRequest)
    ensures
        r@ == record_lookup(cf_token@, zone_id@, domain@, record_type),
{
    let mut url = String::from_str("https://api.cloudflare.com/client/v4/zones/");
    url.append(zone_id);
    url.append("/dns_records?name=");
    url.append(domain);
    url.append("&type=");
    url.append(record_type.as_str());
    ApiRequest { method: Method::Get, url, token: String::from_str(cf_token), body: None }
}

/// Builds the update that replaces the record `record.id` of the zone
/// `zone_id` with `record`. The whole record is the body.
pub fn update_request(cf_token: &str, zone_id: &str, record: &CFDnsRecord) -> (r: ApiRequest)
    ensures
        r@ == record_update(cf_token@, zone_id@, record@),
        r.body == Some(*record),
{
    let mut url = String::from_str("https://api.cloudflare.com/client/v4/zones/");
    url.append(zone_id);
    url.append("/dns_records/");
    url.append(record.id.as_str());
    ApiRequest {
        method: Method::Patch,
        url,
        token: String::from_str(cf_token),
        body: Some(record.clone()),
    }
}

} // verus!
