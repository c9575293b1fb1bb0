//! The envelope of a request to the HAFAS interface and of its response.
use vstd::prelude::*;

use crate::details::{DetailsRequest, DetailsResponse};
use crate::geo_pos::{GeoPosRequest, GeoPosResponse};

verus! {

pub struct FullRequest {
    pub auth: RequestAuth,
    pub client: RequestClient,
    pub ext: String,
    pub formatted: bool,
    pub lang: String,
    pub svc_req_l: Vec<SvcRequest>,
    pub ver: String,
}

pub struct RequestAuth {
    pub aid: String,
    pub type_: String,
}

pub struct RequestClient {
    pub id: String,
    pub name: String,
    pub type_: String,
    pub v: String,
}

pub struct SvcRequest {
    pub cfg: SvcRequestConfig,
    pub request: RequestType,
}

pub struct SvcRequestConfig {
    pub cfg_grp_l: Vec<String>,
    pub cfg_hash: String,
}

/// The service that a request asks for, with its parameters.
#[allow(inconsistent_fields)]
pub enum RequestType {
    HimGeoPos { req: GeoPosRequest },
    HimDetails { req: DetailsRequest },
}

/// The answer of the interface: one entry per service.
pub struct Response {
    pub response: Vec<ResponseType>,
}

/// The answer of one service, with its error field (`OK` on success).
#[allow(inconsistent_fields)]
pub enum ResponseType {
    HimGeoPos { res: GeoPosResponse, err: String },
    HimDetails { res: DetailsResponse, err: String },
}

/// The two services of the interface.
#[derive(Debug, Clone, Copy, PartialEq, Eq, Structural)]
pub enum ServiceKind {
    GeoPos,
    Details,
}

impl ResponseType {
    pub open spec fn spec_kind(&self) -> ServiceKind {
        match self {
            ResponseType::HimGeoPos { .. } => ServiceKind::GeoPos,
            ResponseType::HimDetails { .. } => ServiceKind::Details,
        }
    }

    /// The service that this answer belongs to.
    #[verifier::when_used_as_spec(spec_kind)]
    pub fn kind(&self) -> (res: ServiceKind)
        ensures
            res == self.spec_kind(),
    {
        match self {
            ResponseType::HimGeoPos { .. } => ServiceKind::GeoPos,
            ResponseType::HimDetails { .. } => ServiceKind::Details,
        }
    }
}

/// Some answer in `answers` belongs to the service `kind`.
pub open spec fn has_answer_of(answers: Seq<ResponseType>, kind: ServiceKind) -> bool {
    exists|i: int| 0 <= i < answers.len() && (#[trigger] answers[i]).spec_kind() == kind
}

/// `i` is the position of the first answer in `answers` that belongs to `kind`.
pub open spec fn is_first_answer_of(answers: Seq<ResponseType>, kind: ServiceKind, i: int) -> bool {
    &&& 0 <= i < answers.len()
    &&& answers[i].spec_kind() == kind
    &&& forall|j: int| 0 <= j < i ==> (#[trigger] answers[j]).spec_kind() != kind
}

/// The position of the first answer that belongs to the service `kind`.
pub fn position_of_answer(answers: &Vec<ResponseType>, kind: ServiceKind) -> (res: Option<usize>)
    ensures
        res is None <==> !has_answer_of(answers@, kind),
        res matches Some(i) ==> is_first_answer_of(answers@, kind, i as int),
{
    let n = answers.len();
    let mut i: usize = 0;
    while i < n
        invariant
            n == answers@.len(),
            i <= n,
            forall|j: int| 0 <= j < i ==> (#[trigger] answers@[j]).spec_kind() != kind,
        decreases n - i,
    {
        if answers[i].kind() == kind {
            return Some(i);
        }
        i = i + 1;
    }
    None
}

/// The literal text `OK` of the error field of a successful answer.
pub open spec fn ok_text() -> Seq<char> {
    seq!['O', 'K']
}

/// Tells whether the error field of an answer reports success.
pub fn is_ok_text(err: &String) -> (res: bool)
    ensures
        res == (err@ == ok_text()),
{
    let ok: String = "OK".to_owned();
    proof {
        reveal_strlit("OK");
        assert(ok@ =~= ok_text());
    }
    err.eq(&ok)
}

impl FullRequest {
    /// Wraps the request of one service into the envelope that the interface
    /// expects, with the fixed credentials and client description of the web
    /// application.
    pub fn new(request: RequestType) -> (res: FullRequest)
        ensures
            res.auth.aid@ == "hf7mcf9bv3nv8g5f"@,
            res.auth.type_@ == "AID"@,
            res.client.id@ == "DBZUGRADARNETZ"@,
            res.client.name@ == "webapp"@,
            res.client.type_@ == "WEB"@,
            res.client.v@ == "0.1.0"@,
            res.ext@ == "DBNETZZUGRADAR.2"@,
            !res.formatted,
            res.lang@ == "deu"@,
            res.svc_req_l@.len() == 1,
            res.svc_req_l@[0].cfg.cfg_grp_l@.len() == 0,
            res.svc_req_l@[0].cfg.cfg_hash@ == "i74dckao7PmBwS0rbk0p"@,
            res.svc_req_l@[0].request == request,
            res.ver@ == "1.15"@,
    {
        let mut svc_req_l: Vec<SvcRequest> = Vec::new();
        svc_req_l.push(
            SvcRequest {
                cfg: SvcRequestConfig {
                    cfg_grp_l: Vec::new(),
                    cfg_hash: "i74dckao7PmBwS0rbk0p".to_owned(),
                },
                request,
            },
        );
        FullRequest {
            auth: RequestAuth { aid: "hf7mcf9bv3nv8g5f".to_owned(), type_: "AID".to_owned() },
            client: RequestClient {
                id: "DBZUGRADARNETZ".to_owned(),
                name: "webapp".to_owned(),
                type_: "WEB".to_owned(),
                v: "0.1.0".to_owned(),
            },
            ext: "DBNETZZUGRADAR.2".to_owned(),
            formatted: false,
            lang: "deu".to_owned(),
            svc_req_l,
            ver: "1.15".to_owned(),
        }
    }
}

} // verus!
