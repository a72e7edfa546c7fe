//! The reconciliation wizard's decision logic. An interactive front end
//! shows the prompts and collects the operator's choices; everything that
//! decides what the resulting document holds lives here, as pure functions
//! from the current document, the optional candidate and the choices to the
//! new document.
//!
//! Per leaf field the rules are: when a candidate exists and equals the
//! current value, the value passes through silently and the choice is never
//! consulted; when the candidate differs, the choice picks the current
//! value, the candidate, or a manually entered one; without a candidate the
//! choice keeps the current value or overrides it manually. Fixed fields
//! (the document's own location, the upload URL) always take their
//! documented constants, and a worker's identifier is regenerated fresh on
//! every pass.

use vstd::prelude::*;
use vstd::pervasive::unreached;
use crate::config::{
    Config, ConfigV, Flaskbender, FlaskbenderV, Janitor, JanitorV, Paths, PathsV, RabbitMQ,
    RabbitMQV, Worker, WorkerV, spec_default_config, spec_default_flaskbender, spec_default_janitor,
    spec_default_paths, spec_default_rabbitmq, spec_default_worker,
};

verus! {

// ---------------------------------------------------------------------------
// Leaf values and choices
// ---------------------------------------------------------------------------

/// View of a leaf value.
pub ghost enum ValueV {
    Text(Seq<char>),
    Uns(u64),
    Sig(i64),
}

/// One typed leaf value of the document.
pub enum FieldValue {
    /// A text field.
    Text(String),
    /// An unsigned number.
    Uns(u64),
    /// A signed number.
    Sig(i64),
}

impl View for FieldValue {
    type V = ValueV;

    open spec fn view(&self) -> ValueV {
        match self {
            FieldValue::Text(s) => ValueV::Text(s@),
            FieldValue::Uns(n) => ValueV::Uns(*n),
            FieldValue::Sig(n) => ValueV::Sig(*n),
        }
    }
}

/// The two values have the same type.
pub open spec fn same_kind(a: ValueV, b: ValueV) -> bool {
    &&& (a is Text <==> b is Text)
    &&& (a is Uns <==> b is Uns)
    &&& (a is Sig <==> b is Sig)
}

/// View of an operator's decision for one field.
pub ghost enum ChoiceV {
    Keep,
    Take,
    Manual(ValueV),
}

/// An operator's decision for one field: keep the current value, take the
/// candidate, or override with an entered value.
pub enum Choice {
    Keep,
    Take,
    Manual(FieldValue),
}

impl View for Choice {
    type V = ChoiceV;

    open spec fn view(&self) -> ChoiceV {
        match self {
            Choice::Keep => ChoiceV::Keep,
            Choice::Take => ChoiceV::Take,
            Choice::Manual(v) => ChoiceV::Manual(v@),
        }
    }
}

// ---------------------------------------------------------------------------
// Prompts
// ---------------------------------------------------------------------------

/// What the front end must show for one field.
#[derive(Clone, Copy, Debug, PartialEq, Eq, Structural)]
pub enum PromptKind {
    /// Candidate present and equal: no prompt, the value passes through.
    Silent,
    /// No candidate: offer keeping the proposed value or a manual override.
    Binary,
    /// Candidate present and different: offer current, candidate or manual.
    Ternary,
}

/// Which prompt a field needs.
pub open spec fn spec_prompt_for(this: ValueV, that: Option<ValueV>) -> PromptKind {
    match that {
        Some(t) => if t == this {
            PromptKind::Silent
        } else {
            PromptKind::Ternary
        },
        None => PromptKind::Binary,
    }
}

fn value_eq(a: &FieldValue, b: &FieldValue) -> (r: bool)
    ensures
        r == (a@ == b@),
{
    match (a, b) {
        (FieldValue::Text(x), FieldValue::Text(y)) => *x == *y,
        (FieldValue::Uns(x), FieldValue::Uns(y)) => *x == *y,
        (FieldValue::Sig(x), FieldValue::Sig(y)) => *x == *y,
        _ => false,
    }
}

/// Which prompt the front end must show for one field.
pub fn prompt_for(this: &FieldValue, that: Option<&FieldValue>) -> (r: PromptKind)
    ensures
        r == spec_prompt_for(
            this@,
            match that {
                Some(t) => Some(t@),
                None => None::<ValueV>,
            },
        ),
{
    match that {
        Some(t) => {
            if value_eq(this, t) {
                PromptKind::Silent
            } else {
                PromptKind::Ternary
            }
        },
        None => PromptKind::Binary,
    }
}

// ---------------------------------------------------------------------------
// The leaf value differ
// ---------------------------------------------------------------------------

/// What one field's reconciliation yields. A candidate equal to the current
/// value passes through before any choice is consulted; a manual value of
/// another type than the field is refused and the current value stays.
pub open spec fn spec_differ(this: ValueV, that: Option<ValueV>, c: ChoiceV) -> ValueV {
    match that {
        Some(t) => {
            if t == this {
                this
            } else {
                match c {
                    ChoiceV::Keep => this,
                    ChoiceV::Take => t,
                    ChoiceV::Manual(m) => if same_kind(m, this) {
                        m
                    } else {
                        this
                    },
                }
            }
        },
        None => {
            match c {
                ChoiceV::Manual(m) => if same_kind(m, this) {
                    m
                } else {
                    this
                },
                _ => this,
            }
        },
    }
}

fn same_kind_exec(a: &FieldValue, b: &FieldValue) -> (r: bool)
    ensures
        r == same_kind(a@, b@),
{
    match (a, b) {
        (FieldValue::Text(_), FieldValue::Text(_)) => true,
        (FieldValue::Uns(_), FieldValue::Uns(_)) => true,
        (FieldValue::Sig(_), FieldValue::Sig(_)) => true,
        _ => false,
    }
}

/// Reconcile one leaf value from the operator's decision.
pub fn differ(this: FieldValue, opt_that: Option<FieldValue>, choice: Choice) -> (r: FieldValue)
    ensures
        r@ == spec_differ(
            this@,
            match opt_that {
                Some(t) => Some(t@),
                None => None::<ValueV>,
            },
            choice@,
        ),
{
    match opt_that {
        Some(that) => {
            if value_eq(&this, &that) {
                this
            } else {
                match choice {
                    Choice::Keep => this,
                    Choice::Take => that,
                    Choice::Manual(m) => {
                        if same_kind_exec(&m, &this) {
                            m
                        } else {
                            this
                        }
                    },
                }
            }
        },
        None => {
            match choice {
                Choice::Manual(m) => {
                    if same_kind_exec(&m, &this) {
                        m
                    } else {
                        this
                    }
                },
                _ => this,
            }
        },
    }
}

// ---------------------------------------------------------------------------
// Manual-override input
// ---------------------------------------------------------------------------

/// The type of a leaf field.
#[derive(Clone, Copy, Debug, PartialEq, Eq, Structural)]
pub enum FieldKind {
    Text,
    Uns,
    Sig,
}

/// What operator-entered text means for a field of the given type: any text
/// for a text field, a decimal number in range for a numeric one, nothing
/// when the text does not parse. The front end re-prompts on nothing.
pub open spec fn spec_manual_value(kind: FieldKind, t: Seq<char>) -> Option<ValueV> {
    match kind {
        FieldKind::Text => Some(ValueV::Text(t)),
        FieldKind::Uns => match crate::numtext::spec_parse_u64(t) {
            Some(n) => Some(ValueV::Uns(n)),
            None => None,
        },
        FieldKind::Sig => match crate::numtext::spec_parse_i64(t) {
            Some(n) => Some(ValueV::Sig(n)),
            None => None,
        },
    }
}

/// Parse operator-entered override text for a field of the given type.
/// Nothing comes back exactly when the text is malformed for that type;
/// the front end then re-prompts.
pub fn manual_value(kind: FieldKind, text: &str) -> (r: Option<FieldValue>)
    ensures
        match r {
            Some(v) => spec_manual_value(kind, text@) == Some(v@),
            None => spec_manual_value(kind, text@) == None::<ValueV>,
        },
{
    match kind {
        FieldKind::Text => Some(FieldValue::Text(text.to_owned())),
        FieldKind::Uns => {
            let cs = crate::text::str_to_chars(text);
            match crate::numtext::parse_u64(cs.as_slice()) {
                Some(n) => Some(FieldValue::Uns(n)),
                None => None,
            }
        },
        FieldKind::Sig => {
            let cs = crate::text::str_to_chars(text);
            match crate::numtext::parse_i64(cs.as_slice()) {
                Some(n) => Some(FieldValue::Sig(n)),
                None => None,
            }
        },
    }
}

// ---------------------------------------------------------------------------
// Typed per-field reconciliation, used by the section contracts
// ---------------------------------------------------------------------------

/// The reconciliation of one text field.
pub open spec fn spec_differ_text(cur: Seq<char>, that: Option<Seq<char>>, c: ChoiceV) -> Seq<
    char,
> {
    match spec_differ(
        ValueV::Text(cur),
        match that {
            Some(t) => Some(ValueV::Text(t)),
            None => None,
        },
        c,
    ) {
        ValueV::Text(s) => s,
        _ => cur,
    }
}

/// The reconciliation of one unsigned field.
pub open spec fn spec_differ_u64(cur: u64, that: Option<u64>, c: ChoiceV) -> u64 {
    match spec_differ(
        ValueV::Uns(cur),
        match that {
            Some(t) => Some(ValueV::Uns(t)),
            None => None,
        },
        c,
    ) {
        ValueV::Uns(n) => n,
        _ => cur,
    }
}

/// The reconciliation of one signed field.
pub open spec fn spec_differ_i64(cur: i64, that: Option<i64>, c: ChoiceV) -> i64 {
    match spec_differ(
        ValueV::Sig(cur),
        match that {
            Some(t) => Some(ValueV::Sig(t)),
            None => None,
        },
        c,
    ) {
        ValueV::Sig(n) => n,
        _ => cur,
    }
}

fn differ_text(cur: &String, that: Option<&String>, c: Choice) -> (r: String)
    ensures
        r@ == spec_differ_text(
            cur@,
            match that {
                Some(t) => Some(t@),
                None => None::<Seq<char>>,
            },
            c@,
        ),
{
    let t = match that {
        Some(t) => Some(FieldValue::Text(t.clone())),
        None => None,
    };
    match differ(FieldValue::Text(cur.clone()), t, c) {
        FieldValue::Text(s) => s,
        _ => unreached(),
    }
}

fn differ_u64(cur: u64, that: Option<u64>, c: Choice) -> (r: u64)
    ensures
        r == spec_differ_u64(cur, that, c@),
{
    let t = match that {
        Some(t) => Some(FieldValue::Uns(t)),
        None => None,
    };
    match differ(FieldValue::Uns(cur), t, c) {
        FieldValue::Uns(n) => n,
        _ => unreached(),
    }
}

fn differ_i64(cur: i64, that: Option<i64>, c: Choice) -> (r: i64)
    ensures
        r == spec_differ_i64(cur, that, c@),
{
    let t = match that {
        Some(t) => Some(FieldValue::Sig(t)),
        None => None,
    };
    match differ(FieldValue::Sig(cur), t, c) {
        FieldValue::Sig(n) => n,
        _ => unreached(),
    }
}

// ---------------------------------------------------------------------------
// Per-section choices
// ---------------------------------------------------------------------------

/// View of [`PathsChoices`].
pub ghost struct PathsChoicesV {
    pub private: ChoiceV,
    pub upload: ChoiceV,
}

/// The operator's decisions for the paths section. The document location
/// is fixed and has no choice.
pub struct PathsChoices {
    pub private: Choice,
    pub upload: Choice,
}

impl View for PathsChoices {
    type V = PathsChoicesV;

    open spec fn view(&self) -> PathsChoicesV {
        PathsChoicesV { private: self.private@, upload: self.upload@ }
    }
}

/// View of [`FlaskbenderChoices`].
pub ghost struct FlaskbenderChoicesV {
    pub upload_limit: ChoiceV,
    pub job_cookie_name: ChoiceV,
}

/// The operator's decisions for the upload service section. The upload URL
/// is fixed and has no choice.
pub struct FlaskbenderChoices {
    pub upload_limit: Choice,
    pub job_cookie_name: Choice,
}

impl View for FlaskbenderChoices {
    type V = FlaskbenderChoicesV;

    open spec fn view(&self) -> FlaskbenderChoicesV {
        FlaskbenderChoicesV {
            upload_limit: self.upload_limit@,
            job_cookie_name: self.job_cookie_name@,
        }
    }
}

/// View of [`RabbitMQChoices`].
pub ghost struct RabbitMQChoicesV {
    pub url: ChoiceV,
}

/// The operator's decision for the message-queue section.
pub struct RabbitMQChoices {
    pub url: Choice,
}

impl View for RabbitMQChoices {
    type V = RabbitMQChoicesV;

    open spec fn view(&self) -> RabbitMQChoicesV {
        RabbitMQChoicesV { url: self.url@ }
    }
}

/// View of [`JanitorChoices`].
pub ghost struct JanitorChoicesV {
    pub checking_period_seconds: ChoiceV,
    pub error_deletion_min_minutes: ChoiceV,
    pub error_deletion_max_minutes: ChoiceV,
    pub finish_deletion_min_minutes: ChoiceV,
    pub finish_deletion_max_minutes: ChoiceV,
    pub cancel_deletion_min_minutes: ChoiceV,
    pub cancel_deletion_max_minutes: ChoiceV,
}

/// The operator's decisions for the cleanup section.
pub struct JanitorChoices {
    pub checking_period_seconds: Choice,
    pub error_deletion_min_minutes: Choice,
    pub error_deletion_max_minutes: Choice,
    pub finish_deletion_min_minutes: Choice,
    pub finish_deletion_max_minutes: Choice,
    pub cancel_deletion_min_minutes: Choice,
    pub cancel_deletion_max_minutes: Choice,
}

impl View for JanitorChoices {
    type V = JanitorChoicesV;

    open spec fn view(&self) -> JanitorChoicesV {
        JanitorChoicesV {
            checking_period_seconds: self.checking_period_seconds@,
            error_deletion_min_minutes: self.error_deletion_min_minutes@,
            error_deletion_max_minutes: self.error_deletion_max_minutes@,
            finish_deletion_min_minutes: self.finish_deletion_min_minutes@,
            finish_deletion_max_minutes: self.finish_deletion_max_minutes@,
            cancel_deletion_min_minutes: self.cancel_deletion_min_minutes@,
            cancel_deletion_max_minutes: self.cancel_deletion_max_minutes@,
        }
    }
}

/// View of [`WorkerChoices`].
pub ghost struct WorkerChoicesV {
    pub disklimit: ChoiceV,
    pub grace_period: ChoiceV,
    pub workload: ChoiceV,
    pub heart_rate_seconds: ChoiceV,
}

/// The operator's decisions for the worker section. The identifier is
/// regenerated and has no choice.
pub struct WorkerChoices {
    pub disklimit: Choice,
    pub grace_period: Choice,
    pub workload: Choice,
    pub heart_rate_seconds: Choice,
}

impl View for WorkerChoices {
    type V = WorkerChoicesV;

    open spec fn view(&self) -> WorkerChoicesV {
        WorkerChoicesV {
            disklimit: self.disklimit@,
            grace_period: self.grace_period@,
            workload: self.workload@,
            heart_rate_seconds: self.heart_rate_seconds@,
        }
    }
}

/// View of [`ConfigChoices`].
pub ghost struct ConfigChoicesV {
    pub servername: ChoiceV,
    pub paths: PathsChoicesV,
    pub flaskbender: FlaskbenderChoicesV,
    pub rabbitmq: RabbitMQChoicesV,
    pub janitor: JanitorChoicesV,
    pub worker: WorkerChoicesV,
}

/// The operator's decisions for one whole wizard pass, in the fixed order
/// the sections are walked.
pub struct ConfigChoices {
    pub servername: Choice,
    pub paths: PathsChoices,
    pub flaskbender: FlaskbenderChoices,
    pub rabbitmq: RabbitMQChoices,
    pub janitor: JanitorChoices,
    pub worker: WorkerChoices,
}

impl View for ConfigChoices {
    type V = ConfigChoicesV;

    open spec fn view(&self) -> ConfigChoicesV {
        ConfigChoicesV {
            servername: self.servername@,
            paths: self.paths@,
            flaskbender: self.flaskbender@,
            rabbitmq: self.rabbitmq@,
            janitor: self.janitor@,
            worker: self.worker@,
        }
    }
}

// ---------------------------------------------------------------------------
// Section reconciliation
// ---------------------------------------------------------------------------

/// What reconciling the paths section yields: the fixed document location,
/// and each asked field per its choice.
pub open spec fn spec_compare_paths(cur: PathsV, other: Option<PathsV>, d: PathsChoicesV) -> PathsV {
    PathsV {
        config: spec_default_paths().config,
        private: spec_differ_text(
            cur.private,
            match other {
                Some(o) => Some(o.private),
                None => None,
            },
            d.private,
        ),
        upload: spec_differ_text(
            cur.upload,
            match other {
                Some(o) => Some(o.upload),
                None => None,
            },
            d.upload,
        ),
    }
}

/// What reconciling the upload service section yields: the fixed upload
/// URL, and each asked field per its choice.
pub open spec fn spec_compare_flaskbender(
    cur: FlaskbenderV,
    other: Option<FlaskbenderV>,
    d: FlaskbenderChoicesV,
) -> FlaskbenderV {
    FlaskbenderV {
        upload_limit: spec_differ_u64(
            cur.upload_limit,
            match other {
                Some(o) => Some(o.upload_limit),
                None => None,
            },
            d.upload_limit,
        ),
        upload_url: spec_default_flaskbender().upload_url,
        job_cookie_name: spec_differ_text(
            cur.job_cookie_name,
            match other {
                Some(o) => Some(o.job_cookie_name),
                None => None,
            },
            d.job_cookie_name,
        ),
    }
}

/// What reconciling the message-queue section yields.
pub open spec fn spec_compare_rabbitmq(
    cur: RabbitMQV,
    other: Option<RabbitMQV>,
    d: RabbitMQChoicesV,
) -> RabbitMQV {
    RabbitMQV {
        url: spec_differ_text(
            cur.url,
            match other {
                Some(o) => Some(o.url),
                None => None,
            },
            d.url,
        ),
    }
}

/// What reconciling the cleanup section yields.
pub open spec fn spec_compare_janitor(
    cur: JanitorV,
    other: Option<JanitorV>,
    d: JanitorChoicesV,
) -> JanitorV {
    JanitorV {
        checking_period_seconds: spec_differ_u64(
            cur.checking_period_seconds,
            match other {
                Some(o) => Some(o.checking_period_seconds),
                None => None,
            },
            d.checking_period_seconds,
        ),
        error_deletion_min_minutes: spec_differ_u64(
            cur.error_deletion_min_minutes,
            match other {
                Some(o) => Some(o.error_deletion_min_minutes),
                None => None,
            },
            d.error_deletion_min_minutes,
        ),
        error_deletion_max_minutes: spec_differ_u64(
            cur.error_deletion_max_minutes,
            match other {
                Some(o) => Some(o.error_deletion_max_minutes),
                None => None,
            },
            d.error_deletion_max_minutes,
        ),
        finish_deletion_min_minutes: spec_differ_u64(
            cur.finish_deletion_min_minutes,
            match other {
                Some(o) => Some(o.finish_deletion_min_minutes),
                None => None,
            },
            d.finish_deletion_min_minutes,
        ),
        finish_deletion_max_minutes: spec_differ_u64(
            cur.finish_deletion_max_minutes,
            match other {
                Some(o) => Some(o.finish_deletion_max_minutes),
                None => None,
            },
            d.finish_deletion_max_minutes,
        ),
        cancel_deletion_min_minutes: spec_differ_u64(
            cur.cancel_deletion_min_minutes,
            match other {
                Some(o) => Some(o.cancel_deletion_min_minutes),
                None => None,
            },
            d.cancel_deletion_min_minutes,
        ),
        cancel_deletion_max_minutes: spec_differ_u64(
            cur.cancel_deletion_max_minutes,
            match other {
                Some(o) => Some(o.cancel_deletion_max_minutes),
                None => None,
            },
            d.cancel_deletion_max_minutes,
        ),
    }
}

/// What reconciling the worker section yields: a fresh identifier, never
/// the current one, and each asked field per its choice.
pub open spec fn spec_compare_worker(
    cur: WorkerV,
    other: Option<WorkerV>,
    d: WorkerChoicesV,
    fresh_id: Seq<char>,
) -> WorkerV {
    WorkerV {
        id: fresh_id,
        disklimit: spec_differ_u64(
            cur.disklimit,
            match other {
                Some(o) => Some(o.disklimit),
                None => None,
            },
            d.disklimit,
        ),
        grace_period: spec_differ_u64(
            cur.grace_period,
            match other {
                Some(o) => Some(o.grace_period),
                None => None,
            },
            d.grace_period,
        ),
        workload: spec_differ_u64(
            cur.workload,
            match other {
                Some(o) => Some(o.workload),
                None => None,
            },
            d.workload,
        ),
        heart_rate_seconds: spec_differ_i64(
            cur.heart_rate_seconds,
            match other {
                Some(o) => Some(o.heart_rate_seconds),
                None => None,
            },
            d.heart_rate_seconds,
        ),
    }
}

/// What reconciling the whole document yields: each section in its fixed
/// order, the worker's identifier regenerated to `fresh_id`.
pub open spec fn spec_compare_config(
    cur: ConfigV,
    other: Option<ConfigV>,
    d: ConfigChoicesV,
    fresh_id: Seq<char>,
) -> ConfigV {
    ConfigV {
        servername: spec_differ_text(
            cur.servername,
            match other {
                Some(o) => Some(o.servername),
                None => None,
            },
            d.servername,
        ),
        paths: spec_compare_paths(
            cur.paths,
            match other {
                Some(o) => Some(o.paths),
                None => None,
            },
            d.paths,
        ),
        flaskbender: spec_compare_flaskbender(
            cur.flaskbender,
            match other {
                Some(o) => Some(o.flaskbender),
                None => None,
            },
            d.flaskbender,
        ),
        rabbitmq: spec_compare_rabbitmq(
            cur.rabbitmq,
            match other {
                Some(o) => Some(o.rabbitmq),
                None => None,
            },
            d.rabbitmq,
        ),
        janitor: spec_compare_janitor(
            cur.janitor,
            match other {
                Some(o) => Some(o.janitor),
                None => None,
            },
            d.janitor,
        ),
        worker: spec_compare_worker(
            cur.worker,
            match other {
                Some(o) => Some(o.worker),
                None => None,
            },
            d.worker,
            fresh_id,
        ),
    }
}

impl Paths {
    /// Reconcile this section with an optional candidate under the
    /// operator's decisions, walking the fields in declaration order.
    pub fn compare(&self, other: Option<&Paths>, d: PathsChoices) -> (r: Paths)
        ensures
            r@ == spec_compare_paths(
                self@,
                match other {
                    Some(o) => Some(o@),
                    None => None::<PathsV>,
                },
                d@,
            ),
    {
        let config = Paths::default().config;
        let private = differ_text(
            &self.private,
            match other {
                Some(o) => Some(&o.private),
                None => None,
            },
            d.private,
        );
        let upload = differ_text(
            &self.upload,
            match other {
                Some(o) => Some(&o.upload),
                None => None,
            },
            d.upload,
        );
        let r = Paths { config, private, upload };
        proof {
            assert(r@ =~= spec_compare_paths(
                self@,
                match other {
                    Some(o) => Some(o@),
                    None => None::<PathsV>,
                },
                d@,
            ));
        }
        r
    }

    /// Build the section afresh: every field starts from its documented
    /// default and the operator keeps or overrides it.
    pub fn ask(d: PathsChoices) -> (r: Paths)
        ensures
            r@ == spec_compare_paths(spec_default_paths(), None, d@),
    {
        Paths::default().compare(None, d)
    }
}

impl Flaskbender {
    /// Reconcile this section with an optional candidate under the
    /// operator's decisions, walking the fields in declaration order.
    pub fn compare(&self, other: Option<&Flaskbender>, d: FlaskbenderChoices) -> (r: Flaskbender)
        ensures
            r@ == spec_compare_flaskbender(
                self@,
                match other {
                    Some(o) => Some(o@),
                    None => None::<FlaskbenderV>,
                },
                d@,
            ),
    {
        let upload_limit = differ_u64(
            self.upload_limit,
            match other {
                Some(o) => Some(o.upload_limit),
                None => None,
            },
            d.upload_limit,
        );
        let upload_url = Flaskbender::default().upload_url;
        let job_cookie_name = differ_text(
            &self.job_cookie_name,
            match other {
                Some(o) => Some(&o.job_cookie_name),
                None => None,
            },
            d.job_cookie_name,
        );
        let r = Flaskbender { upload_limit, upload_url, job_cookie_name };
        proof {
            assert(r@ =~= spec_compare_flaskbender(
                self@,
                match other {
                    Some(o) => Some(o@),
                    None => None::<FlaskbenderV>,
                },
                d@,
            ));
        }
        r
    }

    /// Build the section afresh from its documented defaults.
    pub fn ask(d: FlaskbenderChoices) -> (r: Flaskbender)
        ensures
            r@ == spec_compare_flaskbender(spec_default_flaskbender(), None, d@),
    {
        Flaskbender::default().compare(None, d)
    }
}

impl RabbitMQ {
    /// Reconcile this section with an optional candidate under the
    /// operator's decision.
    pub fn compare(&self, other: Option<&RabbitMQ>, d: RabbitMQChoices) -> (r: RabbitMQ)
        ensures
            r@ == spec_compare_rabbitmq(
                self@,
                match other {
                    Some(o) => Some(o@),
                    None => None::<RabbitMQV>,
                },
                d@,
            ),
    {
        let url = differ_text(
            &self.url,
            match other {
                Some(o) => Some(&o.url),
                None => None,
            },
            d.url,
        );
        let r = RabbitMQ { url };
        proof {
            assert(r@ =~= spec_compare_rabbitmq(
                self@,
                match other {
                    Some(o) => Some(o@),
                    None => None::<RabbitMQV>,
                },
                d@,
            ));
        }
        r
    }

    /// Build the section afresh from its documented default.
    pub fn ask(d: RabbitMQChoices) -> (r: RabbitMQ)
        ensures
            r@ == spec_compare_rabbitmq(spec_default_rabbitmq(), None, d@),
    {
        RabbitMQ::default().compare(None, d)
    }
}

impl Janitor {
    /// Reconcile this section with an optional candidate under the
    /// operator's decisions, walking the fields in declaration order.
    pub fn compare(&self, other: Option<&Janitor>, d: JanitorChoices) -> (r: Janitor)
        ensures
            r@ == spec_compare_janitor(
                self@,
                match other {
                    Some(o) => Some(o@),
                    None => None::<JanitorV>,
                },
                d@,
            ),
    {
        let r = Janitor {
            checking_period_seconds: differ_u64(
                self.checking_period_seconds,
                match other {
                    Some(o) => Some(o.checking_period_seconds),
                    None => None,
                },
                d.checking_period_seconds,
            ),
            error_deletion_min_minutes: differ_u64(
                self.error_deletion_min_minutes,
                match other {
                    Some(o) => Some(o.error_deletion_min_minutes),
                    None => None,
                },
                d.error_deletion_min_minutes,
            ),
            error_deletion_max_minutes: differ_u64(
                self.error_deletion_max_minutes,
                match other {
                    Some(o) => Some(o.error_deletion_max_minutes),
                    None => None,
                },
                d.error_deletion_max_minutes,
            ),
            finish_deletion_min_minutes: differ_u64(
                self.finish_deletion_min_minutes,
                match other {
                    Some(o) => Some(o.finish_deletion_min_minutes),
                    None => None,
                },
                d.finish_deletion_min_minutes,
            ),
            finish_deletion_max_minutes: differ_u64(
                self.finish_deletion_max_minutes,
                match other {
                    Some(o) => Some(o.finish_deletion_max_minutes),
                    None => None,
                },
                d.finish_deletion_max_minutes,
            ),
            cancel_deletion_min_minutes: differ_u64(
                self.cancel_deletion_min_minutes,
                match other {
                    Some(o) => Some(o.cancel_deletion_min_minutes),
                    None => None,
                },
                d.cancel_deletion_min_minutes,
            ),
            cancel_deletion_max_minutes: differ_u64(
                self.cancel_deletion_max_minutes,
                match other {
                    Some(o) => Some(o.cancel_deletion_max_minutes),
                    None => None,
                },
                d.cancel_deletion_max_minutes,
            ),
        };
        proof {
            assert(r@ =~= spec_compare_janitor(
                self@,
                match other {
                    Some(o) => Some(o@),
                    None => None::<JanitorV>,
                },
                d@,
            ));
        }
        r
    }

    /// Build the section afresh from its documented defaults.
    pub fn ask(d: JanitorChoices) -> (r: Janitor)
        ensures
            r@ == spec_compare_janitor(spec_default_janitor(), None, d@),
    {
        Janitor::default().compare(None, d)
    }
}

impl Worker {
    /// Reconcile this section with an optional candidate under the
    /// operator's decisions, installing the given fresh identifier. The
    /// current identifier is never preserved.
    pub fn compare_with_id(
        &self,
        other: Option<&Worker>,
        d: WorkerChoices,
        fresh_id: String,
    ) -> (r: Worker)
        ensures
            r@ == spec_compare_worker(
                self@,
                match other {
                    Some(o) => Some(o@),
                    None => None::<WorkerV>,
                },
                d@,
                fresh_id@,
            ),
    {
        let r = Worker {
            id: fresh_id,
            disklimit: differ_u64(
                self.disklimit,
                match other {
                    Some(o) => Some(o.disklimit),
                    None => None,
                },
                d.disklimit,
            ),
            grace_period: differ_u64(
                self.grace_period,
                match other {
                    Some(o) => Some(o.grace_period),
                    None => None,
                },
                d.grace_period,
            ),
            workload: differ_u64(
                self.workload,
                match other {
                    Some(o) => Some(o.workload),
                    None => None,
                },
                d.workload,
            ),
            heart_rate_seconds: differ_i64(
                self.heart_rate_seconds,
                match other {
                    Some(o) => Some(o.heart_rate_seconds),
                    None => None,
                },
                d.heart_rate_seconds,
            ),
        };
        proof {
            assert(r@ =~= spec_compare_worker(
                self@,
                match other {
                    Some(o) => Some(o@),
                    None => None::<WorkerV>,
                },
                d@,
                r@.id,
            ));
        }
        r
    }

    /// Reconcile this section, drawing a fresh random identifier.
    pub fn compare(&self, other: Option<&Worker>, d: WorkerChoices) -> (r: Worker)
        ensures
            crate::secret::is_uuid_text(r@.id),
            r@ == spec_compare_worker(
                self@,
                match other {
                    Some(o) => Some(o@),
                    None => None::<WorkerV>,
                },
                d@,
                r@.id,
            ),
    {
        let fresh = crate::secret::fresh_uuid_string();
        self.compare_with_id(other, d, fresh)
    }

    /// Build the section afresh from its documented defaults, with the
    /// given fresh identifier.
    pub fn ask_with_id(d: WorkerChoices, fresh_id: String) -> (r: Worker)
        ensures
            r@ == spec_compare_worker(spec_default_worker(), None, d@, fresh_id@),
    {
        Worker::default().compare_with_id(None, d, fresh_id)
    }

    /// Build the section afresh from its documented defaults, drawing a
    /// fresh random identifier.
    pub fn ask(d: WorkerChoices) -> (r: Worker)
        ensures
            crate::secret::is_uuid_text(r@.id),
            r@ == spec_compare_worker(spec_default_worker(), None, d@, r@.id),
    {
        Worker::default().compare(None, d)
    }
}

impl Config {
    /// Reconcile the whole document with an optional candidate under the
    /// operator's decisions, installing the given fresh worker identifier.
    /// Sections are walked in their fixed declaration order.
    pub fn compare_with_id(
        &self,
        other: Option<&Config>,
        d: ConfigChoices,
        fresh_id: String,
    ) -> (r: Config)
        ensures
            r@ == spec_compare_config(
                self@,
                match other {
                    Some(o) => Some(o@),
                    None => None::<ConfigV>,
                },
                d@,
                fresh_id@,
            ),
    {
        let r = Config {
            servername: differ_text(
                &self.servername,
                match other {
                    Some(o) => Some(&o.servername),
                    None => None,
                },
                d.servername,
            ),
            paths: self.paths.compare(
                match other {
                    Some(o) => Some(&o.paths),
                    None => None,
                },
                d.paths,
            ),
            flaskbender: self.flaskbender.compare(
                match other {
                    Some(o) => Some(&o.flaskbender),
                    None => None,
                },
                d.flaskbender,
            ),
            rabbitmq: self.rabbitmq.compare(
                match other {
                    Some(o) => Some(&o.rabbitmq),
                    None => None,
                },
                d.rabbitmq,
            ),
            janitor: self.janitor.compare(
                match other {
                    Some(o) => Some(&o.janitor),
                    None => None,
                },
                d.janitor,
            ),
            worker: self.worker.compare_with_id(
                match other {
                    Some(o) => Some(&o.worker),
                    None => None,
                },
                d.worker,
                fresh_id,
            ),
        };
        proof {
            assert(r@ =~~= spec_compare_config(
                self@,
                match other {
                    Some(o) => Some(o@),
                    None => None::<ConfigV>,
                },
                d@,
                r@.worker.id,
            ));
        }
        r
    }

    /// Reconcile the whole document, drawing a fresh random worker
    /// identifier.
    pub fn compare(&self, other: Option<&Config>, d: ConfigChoices) -> (r: Config)
        ensures
            crate::secret::is_uuid_text(r@.worker.id),
            r@ == spec_compare_config(
                self@,
                match other {
                    Some(o) => Some(o@),
                    None => None::<ConfigV>,
                },
                d@,
                r@.worker.id,
            ),
    {
        let fresh = crate::secret::fresh_uuid_string();
        self.compare_with_id(other, d, fresh)
    }

    /// Build a whole document afresh: every field starts from its
    /// documented default and the operator keeps or overrides it, with the
    /// given fresh worker identifier.
    pub fn ask_with_id(d: ConfigChoices, fresh_id: String) -> (r: Config)
        ensures
            r@ == spec_compare_config(spec_default_config(), None, d@, fresh_id@),
    {
        Config::default().compare_with_id(None, d, fresh_id)
    }

    /// Build a whole document afresh, drawing a fresh random worker
    /// identifier.
    pub fn ask(d: ConfigChoices) -> (r: Config)
        ensures
            crate::secret::is_uuid_text(r@.worker.id),
            r@ == spec_compare_config(spec_default_config(), None, d@, r@.worker.id),
    {
        Config::default().compare(None, d)
    }
}

} // verus!
