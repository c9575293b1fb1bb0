//! `HimDetails` requests: one disruption, optionally with the trains it affects.
use vstd::prelude::*;

use crate::disruption::Disruption;
use crate::error::StreckenInfoError;
use crate::geo_pos::GeoPosCommon;
use crate::request::{
    has_answer_of, is_first_answer_of, is_ok_text, ok_text, position_of_answer, Response,
    ResponseType, ServiceKind,
};
use crate::time::{compact_date_text, compact_time_text, format_compact_date, format_compact_time, DateTime};

verus! {

pub struct DetailsRequest {
    pub input: String,
    pub get_trains: bool,
    pub date: String,
    pub time: String,
}

pub struct DetailsResponse {
    pub common: GeoPosCommon,
}

impl DetailsRequest {
    /// The parameters of a details request for the disruption `himid`, at the
    /// given moment.
    pub fn new(himid: &str, get_trains: bool, date: DateTime) -> (res: DetailsRequest)
        requires
            date.wf(),
        ensures
            res.input@ == himid@,
            res.get_trains == get_trains,
            res.date@ == compact_date_text(date.date),
            res.time@ == compact_time_text(date.time),
    {
        DetailsRequest {
            input: himid.to_owned(),
            get_trains,
            date: format_compact_date(&date.date),
            time: format_compact_time(&date.time),
        }
    }
}

/// What the answer to a details request yields: without an answer of that
/// service, `InvalidResponse`; when the first such answer reports an error,
/// that error; when one of its references points to no entry,
/// `ReferenceError`; otherwise its first disruption, linked, if it has one.
pub open spec fn details_outcome(
    answers: Seq<ResponseType>,
    res: Result<Option<Disruption>, StreckenInfoError>,
) -> bool {
    &&& !has_answer_of(answers, ServiceKind::Details) ==> res == Err::<
        Option<Disruption>,
        StreckenInfoError,
    >(StreckenInfoError::InvalidResponse)
    &&& forall|i: int| #[trigger]
        is_first_answer_of(answers, ServiceKind::Details, i) ==> match answers[i] {
            ResponseType::HimDetails { res: answer, err } => first_linked_outcome(
                answer.common,
                err,
                res,
            ),
            _ => false,
        }
}

/// The result of a service answer with the common part `common` and the error
/// field `err`, when the result is its first disruption.
pub open spec fn first_linked_outcome(
    common: GeoPosCommon,
    err: String,
    res: Result<Option<Disruption>, StreckenInfoError>,
) -> bool {
    if err@ != ok_text() {
        res == Err::<Option<Disruption>, StreckenInfoError>(
            StreckenInfoError::ResponseError(err),
        )
    } else if !common.all_references_resolve() {
        res == Err::<Option<Disruption>, StreckenInfoError>(StreckenInfoError::ReferenceError)
    } else {
        &&& res is Ok
        &&& (res->Ok_0 is None <==> common.disruptions@.len() == 0)
        &&& res->Ok_0 matches Some(d) ==> common.is_linked(common.disruptions@[0], d)
    }
}

/// Reads the disruption out of the answer to a details request: takes the
/// first answer of that service, checks its error field, resolves the
/// references of its disruptions and yields the first of them.
pub fn disruption_from_response(response: Response) -> (res: Result<
    Option<Disruption>,
    StreckenInfoError,
>)
    ensures
        details_outcome(response.response@, res),
{
    let ghost answers = response.response@;
    let mut answers_vec = response.response;
    let position = position_of_answer(&answers_vec, ServiceKind::Details);
    match position {
        None => Err(StreckenInfoError::InvalidResponse),
        Some(i) => {
            let answer = answers_vec.remove(i);
            proof {
                assert forall|j: int| #[trigger]
                    is_first_answer_of(answers, ServiceKind::Details, j) implies j == i by {
                    if j < i {
                        assert(answers[j].spec_kind() != ServiceKind::Details);
                    } else if j > i {
                        assert(answers[i as int].spec_kind() != ServiceKind::Details);
                    }
                }
            }
            match answer {
                ResponseType::HimDetails { res, err } => {
                    if !is_ok_text(&err) {
                        return Err(StreckenInfoError::ResponseError(err));
                    }
                    let mut common = res.common;
                    match common.link() {
                        Ok(()) => {
                            let mut disruptions = common.disruptions;
                            if disruptions.len() == 0 {
                                Ok(None)
                            } else {
                                Ok(Some(disruptions.remove(0)))
                            }
                        },
                        Err(e) => Err(e),
                    }
                },
                ResponseType::HimGeoPos { .. } => Err(StreckenInfoError::InvalidResponse),
            }
        },
    }
}

} // verus!
