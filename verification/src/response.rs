//! Fan-in: merging per-domain outcomes into one response.
//!
//! An [`Outgoing`] holds one outcome per slot that was present in the
//! envelope. [`Outgoing::response`] builds the wire body — one entry per
//! present slot, each `{ok, data}` — and resolves the one overall status
//! code: 200 when no domain reports a bad code, otherwise a bad code with
//! the client range (400–499) preferred over the server range (500–599),
//! and 500 when a bad code fits neither range. Which code is picked
//! among several of the same range is implementation-defined; callers may
//! rely on the range only.

use vstd::prelude::*;
use crate::incoming::Incoming;
use crate::json::{json_obj_new, json_obj_push, JsonModel, JsonValue};
use crate::outgoing::{
    spec_from_deploy_json, spec_from_frontend_json, FromDeploy, FromDeployErr, FromDiscord,
    FromDiscordErr, FromFrontend, FromFrontendErr, FromSql, FromSqlErr, OutgoingErr,
};

verus! {

/// One of the four downstream concerns a request may address.
#[derive(Clone, Copy, PartialEq, Eq, Structural, Debug)]
pub enum Domain {
    Deploy,
    Discord,
    Frontend,
    Sql,
}

impl Domain {
    /// The wire name of this domain: its key in request and response.
    pub open spec fn spec_name(self) -> Seq<char> {
        match self {
            Domain::Deploy => "deploy"@,
            Domain::Discord => "discord"@,
            Domain::Frontend => "frontend"@,
            Domain::Sql => "sql"@,
        }
    }

    /// Renders the wire name of this domain.
    pub fn name(&self) -> (r: &'static str)
        ensures
            r@ == self.spec_name(),
    {
        match self {
            Domain::Deploy => "deploy",
            Domain::Discord => "discord",
            Domain::Frontend => "frontend",
            Domain::Sql => "sql",
        }
    }
}

impl Incoming {
    /// The domains whose slots are present, in the fixed slot order.
    pub open spec fn spec_present(self) -> Seq<Domain> {
        (if self.depl is Some {
            seq![Domain::Deploy]
        } else {
            Seq::empty()
        }) + (if self.disc is Some {
            seq![Domain::Discord]
        } else {
            Seq::empty()
        }) + (if self.fron is Some {
            seq![Domain::Frontend]
        } else {
            Seq::empty()
        }) + (if self.sqll is Some {
            seq![Domain::Sql]
        } else {
            Seq::empty()
        })
    }

    /// The fan-out plan: exactly the present slots' domains, in slot
    /// order. Absent slots yield no task; with no present slot the plan
    /// is empty and no handler runs at all.
    pub fn domains_to_dispatch(&self) -> (ds: Vec<Domain>)
        ensures
            ds@ == self.spec_present(),
    {
        let mut ds: Vec<Domain> = Vec::new();
        if self.depl.is_some() {
            ds.push(Domain::Deploy);
        }
        if self.disc.is_some() {
            ds.push(Domain::Discord);
        }
        if self.fron.is_some() {
            ds.push(Domain::Frontend);
        }
        if self.sqll.is_some() {
            ds.push(Domain::Sql);
        }
        proof {
            assert(ds@ =~= self.spec_present());
        }
        ds
    }
}

/// The collected outcomes of one dispatch: for each slot that was present
/// in the envelope, the outcome its handler produced; absent slots stay
/// absent.
pub struct Outgoing {
    pub depl: Option<Result<FromDeploy, FromDeployErr>>,
    pub disc: Option<Result<FromDiscord, FromDiscordErr>>,
    pub fron: Option<Result<FromFrontend, FromFrontendErr>>,
    pub sqll: Option<Result<FromSql, FromSqlErr>>,
}

/// Whether an outcome set answers an envelope: each slot's outcome is
/// present exactly when the envelope's slot is.
pub open spec fn spec_responds_to(out: Outgoing, env: Incoming) -> bool {
    &&& out.depl is Some <==> env.depl is Some
    &&& out.disc is Some <==> env.disc is Some
    &&& out.fron is Some <==> env.fron is Some
    &&& out.sqll is Some <==> env.sqll is Some
}

/// The final answer to one inbound call: the overall status code and the
/// response body handed to the transport layer.
pub struct Response {
    pub status: u16,
    pub body: JsonValue,
}

/// The document of one body entry: whether the domain succeeded, and the
/// payload or error document under `data`.
pub open spec fn spec_entry_json(ok: bool, data: JsonModel) -> JsonModel {
    JsonModel::Obj(seq![("ok"@, JsonModel::Bool(ok)), ("data"@, data)])
}

/// The data document of an error outcome: the rendered error body, or
/// the rendering diagnostic as a bare string.
pub open spec fn spec_err_data(b: Result<JsonModel, Seq<char>>) -> JsonModel {
    match b {
        Ok(m) => m,
        Err(t) => JsonModel::Str(t),
    }
}

/// Builds a present slot's entry from the rendering of its success
/// payload. A payload that rendered gives `{ok: true, data: <payload>}`
/// and contributes 200; one whose rendering failed degrades to
/// `{ok: false, data: <diagnostic>}` and contributes 500, so the fault
/// stays confined to its own slot.
pub fn success_entry(encoded: Result<JsonValue, String>) -> (r: (JsonValue, u16))
    ensures
        match encoded {
            Ok(body) => r.0@ == spec_entry_json(true, body@) && r.1 == 200,
            Err(diag) => r.0@ == spec_entry_json(false, JsonModel::Str(diag@)) && r.1 == 500,
        },
{
    match encoded {
        Ok(body) => {
            let ghost data_model = body@;
            let mut entry = json_obj_new();
            json_obj_push(&mut entry, "ok", JsonValue::Bool(true));
            json_obj_push(&mut entry, "data", body);
            proof {
                assert(entry@->Obj_0 =~= spec_entry_json(true, data_model)->Obj_0);
                assert(entry@ == spec_entry_json(true, data_model));
            }
            (entry, 200)
        }
        Err(diag) => {
            let ghost diag_model = diag@;
            let mut entry = json_obj_new();
            json_obj_push(&mut entry, "ok", JsonValue::Bool(false));
            json_obj_push(&mut entry, "data", JsonValue::Str(diag));
            proof {
                assert(entry@->Obj_0 =~= spec_entry_json(
                    false,
                    JsonModel::Str(diag_model),
                )->Obj_0);
                assert(entry@ == spec_entry_json(false, JsonModel::Str(diag_model)));
            }
            (entry, 500)
        }
    }
}

/// Builds a present slot's entry from its error outcome: always
/// `{ok: false, data: <error body>}`, contributing the error's own code;
/// a body that failed to render degrades to its diagnostic string.
pub fn failure_entry(code: u16, body: Result<JsonValue, String>) -> (r: (JsonValue, u16))
    ensures
        r.0@ == spec_entry_json(
            false,
            match body {
                Ok(b) => b@,
                Err(d) => JsonModel::Str(d@),
            },
        ),
        r.1 == code,
{
    let data = match body {
        Ok(b) => b,
        Err(d) => JsonValue::Str(d),
    };
    let ghost data_model = data@;
    let mut entry = json_obj_new();
    json_obj_push(&mut entry, "ok", JsonValue::Bool(false));
    json_obj_push(&mut entry, "data", data);
    proof {
        assert(entry@->Obj_0 =~= spec_entry_json(false, data_model)->Obj_0);
        assert(entry@ == spec_entry_json(false, data_model));
    }
    (entry, code)
}

impl Outgoing {
    /// The status code a slot's outcome asks for: 200 for a success,
    /// the error's own code for a failure, nothing for an absent slot.
    pub open spec fn spec_code<T, E: OutgoingErr>(opt_res: Option<Result<T, E>>) -> Option<
        u16,
    > {
        match opt_res {
            Some(Ok(_)) => Some(200),
            Some(Err(e)) => Some(e.spec_status_code()),
            None => None,
        }
    }

    fn get_code<T, E: OutgoingErr>(opt_res: &Option<Result<T, E>>) -> (r: Option<u16>)
        ensures
            r == Self::spec_code(*opt_res),
    {
        match opt_res {
            Some(Ok(_)) => Some(200),
            Some(Err(e)) => Some(e.status_code()),
            None => None,
        }
    }

    /// The response body's entries: one per present slot, in slot order.
    pub open spec fn spec_entries(self) -> Seq<(Seq<char>, JsonModel)> {
        (match self.depl {
            None => Seq::empty(),
            Some(Ok(p)) => seq![
                ("deploy"@, spec_entry_json(true, spec_from_deploy_json(p))),
            ],
            Some(Err(e)) => seq![
                ("deploy"@, spec_entry_json(false, spec_err_data(e.spec_body()))),
            ],
        }) + (match self.disc {
            None => Seq::empty(),
            Some(Ok(_)) => seq![
                ("discord"@, spec_entry_json(true, JsonModel::Str("success"@))),
            ],
            Some(Err(e)) => seq![
                ("discord"@, spec_entry_json(false, spec_err_data(e.spec_body()))),
            ],
        }) + (match self.fron {
            None => Seq::empty(),
            Some(Ok(p)) => seq![
                ("frontend"@, spec_entry_json(true, spec_from_frontend_json(p))),
            ],
            Some(Err(e)) => seq![
                ("frontend"@, spec_entry_json(false, spec_err_data(e.spec_body()))),
            ],
        }) + (match self.sqll {
            None => Seq::empty(),
            Some(Ok(p)) => seq![
                (
                    "sql"@,
                    spec_entry_json(
                        true,
                        JsonModel::Obj(
                            seq![
                                ("__type"@, JsonModel::Str(p.spec_label())),
                                ("data"@, p.spec_data_json()),
                            ],
                        ),
                    ),
                ),
            ],
            Some(Err(e)) => seq![
                ("sql"@, spec_entry_json(false, spec_err_data(e.spec_body()))),
            ],
        })
    }

    /// The whole response body document.
    pub open spec fn spec_body(self) -> JsonModel {
        JsonModel::Obj(self.spec_entries())
    }

    /// The codes the present slots contribute, in slot order.
    pub open spec fn spec_codes(self) -> Seq<u16> {
        (match Self::spec_code(self.depl) {
            Some(c) => seq![c],
            None => Seq::empty(),
        }) + (match Self::spec_code(self.disc) {
            Some(c) => seq![c],
            None => Seq::empty(),
        }) + (match Self::spec_code(self.fron) {
            Some(c) => seq![c],
            None => Seq::empty(),
        }) + (match Self::spec_code(self.sqll) {
            Some(c) => seq![c],
            None => Seq::empty(),
        })
    }

    /// The contributed codes that are bad: outside [200, 300).
    pub open spec fn spec_bad_codes(self) -> Seq<u16> {
        spec_bad_of(Self::spec_code(self.depl)) + spec_bad_of(Self::spec_code(self.disc))
            + spec_bad_of(Self::spec_code(self.fron)) + spec_bad_of(Self::spec_code(self.sqll))
    }

    /// The overall status this outcome set resolves to.
    pub open spec fn spec_status(self) -> u16 {
        spec_status_of(self.spec_bad_codes())
    }

    /// Merges the outcomes into the final response: §4.4's body map and
    /// overall status in one pass.
    pub fn response(self) -> (r: Response)
        ensures
            r.body@ == self.spec_body(),
            r.status == self.spec_status(),
    {
        let ghost myself = self;
        let Outgoing { depl, disc, fron, sqll } = self;
        let mut bad: Vec<u16> = Vec::new();
        let mut body = json_obj_new();

        match depl {
            Some(res) => {
                let (entry, code) = match res {
                    Ok(p) => success_entry(Ok(p.body())),
                    Err(e) => {
                        let code = e.status_code();
                        failure_entry(code, e.body())
                    }
                };
                json_obj_push(&mut body, "deploy", entry);
                if !(200 <= code && code < 300) {
                    bad.push(code);
                }
            }
            None => {}
        }
        match disc {
            Some(res) => {
                let (entry, code) = match res {
                    Ok(p) => success_entry(Ok(p.body())),
                    Err(e) => {
                        let code = e.status_code();
                        failure_entry(code, e.body())
                    }
                };
                json_obj_push(&mut body, "discord", entry);
                if !(200 <= code && code < 300) {
                    bad.push(code);
                }
            }
            None => {}
        }
        match fron {
            Some(res) => {
                let (entry, code) = match res {
                    Ok(p) => success_entry(Ok(p.body())),
                    Err(e) => {
                        let code = e.status_code();
                        failure_entry(code, e.body())
                    }
                };
                json_obj_push(&mut body, "frontend", entry);
                if !(200 <= code && code < 300) {
                    bad.push(code);
                }
            }
            None => {}
        }
        match sqll {
            Some(res) => {
                let (entry, code) = match res {
                    Ok(p) => success_entry(Ok(p.body())),
                    Err(e) => {
                        let code = e.status_code();
                        failure_entry(code, e.body())
                    }
                };
                json_obj_push(&mut body, "sql", entry);
                if !(200 <= code && code < 300) {
                    bad.push(code);
                }
            }
            None => {}
        }

        proof {
            assert(body@->Obj_0 =~= myself.spec_entries());
            assert(body@ == JsonModel::Obj(myself.spec_entries()));
            assert(bad@ =~= myself.spec_bad_codes());
        }
        let status = resolve_status(&bad);
        Response { status, body }
    }
}

/// What one slot's contributed code adds to the bad set: the code when
/// it lies outside [200, 300), nothing otherwise.
pub open spec fn spec_bad_of(code: Option<u16>) -> Seq<u16> {
    match code {
        Some(c) => if !(200 <= c < 300) {
            seq![c]
        } else {
            Seq::empty()
        },
        None => Seq::empty(),
    }
}

/// The first code of the sequence that falls in `[lo, hi)`.
pub open spec fn spec_first_in_range(codes: Seq<u16>, lo: u16, hi: u16) -> Option<u16>
    decreases codes.len(),
{
    if codes.len() == 0 {
        None
    } else if lo <= codes[0] < hi {
        Some(codes[0])
    } else {
        spec_first_in_range(codes.drop_first(), lo, hi)
    }
}

/// The overall status a bad-code set resolves to: 200 when it is empty;
/// otherwise a client-range code if there is one, else a server-range
/// code if there is one, else 500.
pub open spec fn spec_status_of(bads: Seq<u16>) -> u16 {
    if bads.len() == 0 {
        200
    } else {
        match spec_first_in_range(bads, 400, 500) {
            Some(c) => c,
            None => match spec_first_in_range(bads, 500, 600) {
                Some(s) => s,
                None => 500,
            },
        }
    }
}

fn first_in_range(codes: &Vec<u16>, lo: u16, hi: u16) -> (r: Option<u16>)
    ensures
        r == spec_first_in_range(codes@, lo, hi),
{
    let mut i: usize = codes.len();
    let mut r: Option<u16> = None;
    while i > 0
        invariant
            i <= codes@.len(),
            r == spec_first_in_range(codes@.skip(i as int), lo, hi),
        decreases i,
    {
        i -= 1;
        let c = codes[i];
        if lo <= c && c < hi {
            r = Some(c);
        }
        proof {
            assert(codes@.skip(i as int).drop_first() =~= codes@.skip(i + 1));
        }
    }
    proof {
        assert(codes@.skip(0) =~= codes@);
    }
    r
}

/// Resolves the overall status from the collected bad codes.
pub fn resolve_status(bad: &Vec<u16>) -> (r: u16)
    ensures
        r == spec_status_of(bad@),
{
    if bad.len() == 0 {
        return 200;
    }
    match first_in_range(bad, 400, 500) {
        Some(c) => c,
        None => match first_in_range(bad, 500, 600) {
            Some(s) => s,
            None => 500,
        },
    }
}

/// The response body laid out slot by slot, as the schema of the wire
/// format describes it.
pub struct OutgoingSchemaShape {
    pub deploy: Option<Result<FromDeploy, FromDeployErr>>,
    pub discord: Option<Result<FromDiscord, FromDiscordErr>>,
    pub frontend: Option<Result<FromFrontend, FromFrontendErr>>,
    pub sql: Option<Result<FromSql, FromSqlErr>>,
}

impl From<Outgoing> for OutgoingSchemaShape {
    fn from(out: Outgoing) -> (r: OutgoingSchemaShape) {
        OutgoingSchemaShape {
            deploy: out.depl,
            discord: out.disc,
            frontend: out.fron,
            sql: out.sqll,
        }
    }
}

impl vstd::std_specs::convert::FromSpecImpl<Outgoing> for OutgoingSchemaShape {
    open spec fn obeys_from_spec() -> bool {
        true
    }

    open spec fn from_spec(out: Outgoing) -> OutgoingSchemaShape {
        OutgoingSchemaShape {
            deploy: out.depl,
            discord: out.disc,
            frontend: out.fron,
            sql: out.sqll,
        }
    }
}

/// A first-in-range lookup finds a code of that range when the sequence
/// holds one, and that code is one of the sequence's.
pub proof fn lemma_first_in_range_props(codes: Seq<u16>, lo: u16, hi: u16)
    ensures
        match spec_first_in_range(codes, lo, hi) {
            Some(c) => codes.contains(c) && lo <= c < hi,
            None => forall|i: int| 0 <= i < codes.len() ==> !(lo <= #[trigger] codes[i] < hi),
        },
    decreases codes.len(),
{
    if codes.len() > 0 && !(lo <= codes[0] < hi) {
        lemma_first_in_range_props(codes.drop_first(), lo, hi);
        match spec_first_in_range(codes.drop_first(), lo, hi) {
            Some(c) => {
                let i = choose|i: int|
                    0 <= i < codes.drop_first().len() && codes.drop_first()[i] == c;
                assert(codes[i + 1] == c);
            }
            None => {
                assert forall|i: int| 0 <= i < codes.len() implies !(lo <= #[trigger] codes[i]
                    < hi) by {
                    if i > 0 {
                        assert(codes.drop_first()[i - 1] == codes[i]);
                    }
                }
            }
        }
    }
}

/// The precedence policy, stated once over any bad-code set: an empty set
/// resolves to 200; a set with a client-range code (400–499) resolves to
/// one of its client-range codes; one with only server-range codes
/// (500–599) beyond that resolves to one of those; a non-empty set with
/// neither falls back to 500.
pub proof fn lemma_status_precedence(bads: Seq<u16>)
    ensures
        bads.len() == 0 ==> spec_status_of(bads) == 200,
        (exists|i: int| 0 <= i < bads.len() && 400 <= #[trigger] bads[i] < 500) ==> {
            &&& 400 <= spec_status_of(bads) < 500
            &&& bads.contains(spec_status_of(bads))
        },
        ((forall|i: int| 0 <= i < bads.len() ==> !(400 <= #[trigger] bads[i] < 500)) && (
        exists|i: int| 0 <= i < bads.len() && 500 <= #[trigger] bads[i] < 600)) ==> {
            &&& 500 <= spec_status_of(bads) < 600
            &&& bads.contains(spec_status_of(bads))
        },
        (bads.len() > 0 && (forall|i: int|
            0 <= i < bads.len() ==> !(400 <= #[trigger] bads[i] < 600))) ==> spec_status_of(
            bads,
        ) == 500,
{
    lemma_first_in_range_props(bads, 400, 500);
    lemma_first_in_range_props(bads, 500, 600);
    if exists|i: int| 0 <= i < bads.len() && 400 <= #[trigger] bads[i] < 500 {
        assert(spec_first_in_range(bads, 400, 500) is Some);
    }
}

/// With no present slot nothing is dispatched and nothing is answered:
/// the fan-out plan is empty, and any outcome set answering such an
/// envelope aggregates to an empty body with status 200.
pub proof fn lemma_empty_envelope(env: Incoming, out: Outgoing)
    requires
        env.depl is None,
        env.disc is None,
        env.fron is None,
        env.sqll is None,
        spec_responds_to(out, env),
    ensures
        env.spec_present() =~= Seq::<Domain>::empty(),
        out.spec_body() == JsonModel::Obj(Seq::<(Seq<char>, JsonModel)>::empty()),
        out.spec_status() == 200,
{
    assert(out.spec_entries() =~= Seq::<(Seq<char>, JsonModel)>::empty());
    assert(out.spec_bad_codes() =~= Seq::<u16>::empty());
}

/// The response body's keys are exactly the present slots' names, in
/// slot order: no slot is dropped, none is synthesized.
pub proof fn lemma_response_keys(env: Incoming, out: Outgoing)
    requires
        spec_responds_to(out, env),
    ensures
        out.spec_body().keys() =~= env.spec_present().map_values(|d: Domain| d.spec_name()),
{
}

} // verus!

