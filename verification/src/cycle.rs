//! Response aggregation: one request's reply is read line by line until a
//! terminal response, accumulating decoded data and destroying it on every
//! failing path.

use vstd::prelude::*;
use vstd::string::StringExecFns;
use zeroize::Zeroize;

use crate::data::{data_decodes, spec_decoded_data, decode_data_line};
use crate::error::{invalid_data_error, spec_classified, Error};
use crate::response::{server_response, spec_parse, Response, SpecResponse};
use crate::secret::{secret_chars, secret_option_chars, SecretData};

verus! {

/// Relies on zeroize's `Zeroize` for `String`: overwrites the buffer's
/// storage in place, spare capacity included, and leaves the string empty.
#[verifier::external_body]
fn zeroize_string(s: &mut String)
    ensures
        final(s)@ == Seq::<char>::empty(),
{
    s.zeroize();
}

/// What one response line does to a cycle, given the data accumulated so
/// far.
pub enum SpecOutcome {
    /// The cycle goes on reading; this much data is now accumulated.
    Continue { acc: Option<Seq<char>> },
    /// The cycle ended successfully with this data.
    Done { data: Option<Seq<char>> },
    /// The line matched no shape of the grammar, or its data did not decode
    /// to well-formed text.
    Malformed,
    /// The server reported failure with this code and description.
    Rejected { code: u16, description: Option<Seq<char>> },
}

/// The aggregation step: a terminal `OK` hands the accumulated data over, a
/// terminal `ERR` carries the code and description out, a data line is
/// decoded and appended, and every other recognized line is ignored.
pub open spec fn spec_cycle_step(acc: Option<Seq<char>>, line: Seq<char>) -> SpecOutcome {
    match spec_parse(line) {
        None => SpecOutcome::Malformed,
        Some(resp) => match resp {
            SpecResponse::Success { info } => SpecOutcome::Done { data: acc },
            SpecResponse::Failure { code, description } => SpecOutcome::Rejected {
                code,
                description,
            },
            SpecResponse::DataLine { data } => {
                if data_decodes(data) {
                    let decoded = spec_decoded_data(data);
                    SpecOutcome::Continue {
                        acc: match acc {
                            Some(a) => Some(a + decoded),
                            None => Some(decoded),
                        },
                    }
                } else {
                    SpecOutcome::Malformed
                }
            },
            SpecResponse::Information { keyword, status } => SpecOutcome::Continue { acc },
            SpecResponse::Comment { text } => SpecOutcome::Continue { acc },
            SpecResponse::Inquire { keyword, parameters } => SpecOutcome::Continue { acc },
        },
    }
}

/// A whole sequence of response lines, folded through the aggregation step
/// from the given accumulated data.
pub open spec fn spec_cycle_run(acc: Option<Seq<char>>, lines: Seq<Seq<char>>) -> SpecOutcome
    decreases lines.len(),
{
    if lines.len() == 0 {
        SpecOutcome::Continue { acc }
    } else {
        match spec_cycle_step(acc, lines[0]) {
            SpecOutcome::Continue { acc: next } => spec_cycle_run(next, lines.drop_first()),
            SpecOutcome::Done { data } => SpecOutcome::Done { data },
            SpecOutcome::Malformed => SpecOutcome::Malformed,
            SpecOutcome::Rejected { code, description } => SpecOutcome::Rejected {
                code,
                description,
            },
        }
    }
}

/// What a finished call of the aggregator reports for one line.
#[derive(Debug)]
pub enum CycleStep {
    /// The terminal response has not arrived yet; keep reading.
    Continue,
    /// The cycle ended successfully, handing over the accumulated data —
    /// absent when no data line was seen.
    Done(Option<SecretData>),
}

/// One request/response cycle's read state: the data accumulated from the
/// `D` lines seen so far.
///
/// The buffer carries secrets, so it lives in a [`SecretData`], whose
/// storage is overwritten before being released on every path that drops
/// it: when a data line replaces it, when the server reports failure, and
/// when a line is malformed. The caller owns the raw line buffers and is
/// expected to wipe each after handing it in.
pub struct ResponseCycle {
    data: Option<SecretData>,
}

impl View for ResponseCycle {
    type V = Option<Seq<char>>;

    closed spec fn view(&self) -> Option<Seq<char>> {
        secret_option_chars(self.data)
    }
}

impl ResponseCycle {
    /// Starts a cycle with nothing accumulated.
    pub fn new() -> (r: Self)
        ensures
            r@ is None,
    {
        ResponseCycle { data: None }
    }

    /// Drops whatever is accumulated; the buffer wipes its own storage as
    /// it goes.
    fn wipe(&mut self)
        ensures
            final(self)@ is None,
    {
        self.data = None;
    }

    /// Feeds one line of server output to the cycle, following
    /// [`spec_cycle_step`]: the result reports whether the cycle goes on,
    /// ended with data, or failed — with the accumulated data destroyed on
    /// every failing path.
    pub fn process_line(&mut self, line: &str) -> (r: Result<CycleStep, Error>)
        ensures
            match spec_cycle_step(old(self)@, line@) {
                SpecOutcome::Continue { acc } => r matches Ok(CycleStep::Continue)
                    && final(self)@ == acc,
                SpecOutcome::Done { data } => (r matches Ok(CycleStep::Done(d))
                    && secret_option_chars(d) == data) && final(self)@ is None,
                SpecOutcome::Malformed => (r matches Err(e) && e is Io) && final(self)@ is None,
                SpecOutcome::Rejected { code, description } => (r matches Err(e)
                    && spec_classified(e, code, description)) && final(self)@ is None,
            },
    {
        match server_response(line) {
            None => {
                self.wipe();
                Err(Error::Io(invalid_data_error("server response matches no known shape")))
            },
            Some(Response::Success(info)) => {
                Ok(CycleStep::Done(self.data.take()))
            },
            Some(Response::Failure { code, description }) => {
                self.wipe();
                Err(Error::from_parts(code, description))
            },
            Some(Response::DataLine(content)) => {
                let mut content = content;
                let ghost raw = content@;
                match decode_data_line(content.as_str()) {
                    Some(decoded) => {
                        let mut decoded = decoded;
                        let mut combined = String::new();
                        match self.data.take() {
                            // The prior buffer wipes its storage when it
                            // drops at the end of this arm.
                            Some(prior) => combined.append(prior.expose().as_str()),
                            None => {},
                        }
                        combined.append(decoded.as_str());
                        zeroize_string(&mut decoded);
                        zeroize_string(&mut content);
                        proof {
                            match old(self)@ {
                                Some(a) => assert(combined@ =~= a + spec_decoded_data(raw)) by {
                                    assert(Seq::<char>::empty() + a =~= a);
                                },
                                None => assert(combined@ =~= spec_decoded_data(raw)) by {
                                    assert(Seq::<char>::empty() + spec_decoded_data(raw)
                                        =~= spec_decoded_data(raw));
                                },
                            }
                        }
                        self.data = Some(SecretData::new(combined));
                        Ok(CycleStep::Continue)
                    },
                    None => {
                        zeroize_string(&mut content);
                        self.wipe();
                        Err(
                            Error::Io(
                                invalid_data_error("data line does not decode to well-formed text"),
                            ),
                        )
                    },
                }
            },
            Some(Response::Information { keyword, status }) => Ok(CycleStep::Continue),
            Some(Response::Comment(text)) => Ok(CycleStep::Continue),
            Some(Response::Inquire { keyword, parameters }) => Ok(CycleStep::Continue),
        }
    }
}

/// Aggregation law: a cycle of two data lines followed by a success line
/// yields one buffer holding the two decoded payloads concatenated in
/// order.
pub proof fn lemma_aggregation(l1: Seq<char>, l2: Seq<char>, l3: Seq<char>, d1: Seq<char>, d2: Seq<char>, info: Option<Seq<char>>)
    requires
        spec_parse(l1) == Some(SpecResponse::DataLine { data: d1 }),
        spec_parse(l2) == Some(SpecResponse::DataLine { data: d2 }),
        spec_parse(l3) == Some(SpecResponse::Success { info }),
        data_decodes(d1),
        data_decodes(d2),
    ensures
        spec_cycle_run(None, seq![l1, l2, l3]) == (SpecOutcome::Done {
            data: Some(spec_decoded_data(d1) + spec_decoded_data(d2)),
        }),
{
    let lines = seq![l1, l2, l3];
    assert(lines.drop_first() =~= seq![l2, l3]);
    assert(seq![l2, l3].drop_first() =~= seq![l3]);
    assert(seq![l3].drop_first() =~= Seq::<Seq<char>>::empty());
    let a1 = Some(spec_decoded_data(d1));
    let a2 = Some(spec_decoded_data(d1) + spec_decoded_data(d2));
    assert(spec_cycle_step(None, l1) == (SpecOutcome::Continue { acc: a1 }));
    assert(spec_cycle_step(a1, l2) == (SpecOutcome::Continue { acc: a2 }));
    assert(spec_cycle_step(a2, l3) == (SpecOutcome::Done { data: a2 }));
    assert(spec_cycle_run(None, lines) == spec_cycle_run(a1, seq![l2, l3]));
    assert(spec_cycle_run(a1, seq![l2, l3]) == spec_cycle_run(a2, seq![l3]));
    assert(spec_cycle_run(a2, seq![l3]) == (SpecOutcome::Done { data: a2 }));
}

} // verus!
