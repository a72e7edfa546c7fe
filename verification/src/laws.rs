//! The wizard's stated laws, proved once and for all values. Each law is a
//! public proof function; its statement is its contract.

use vstd::prelude::*;
use crate::config::{
    ConfigV, FlaskbenderV, PathsV, WorkerV, spec_default_config, spec_default_flaskbender,
    spec_default_paths, spec_default_worker,
};
use crate::wizard::{
    ChoiceV, ConfigChoicesV, ValueV, same_kind, spec_compare_config, spec_differ,
};

verus! {

/// In the three-way prompt, choosing the candidate yields a value equal to
/// the candidate and choosing the current value yields a value equal to
/// the current one — also when the two were equal and no prompt was shown.
pub proof fn law_ternary_choice(this: ValueV, that: ValueV)
    ensures
        spec_differ(this, Some(that), ChoiceV::Take) == that,
        spec_differ(this, Some(that), ChoiceV::Keep) == this,
{
}

/// A manual override of the field's own type yields exactly the entered
/// value, with or without a candidate — unless the candidate equals the
/// current value, in which case no prompt is shown and the current value
/// passes through.
pub proof fn law_manual_override(this: ValueV, that: ValueV, m: ValueV)
    requires
        same_kind(m, this),
    ensures
        that != this ==> spec_differ(this, Some(that), ChoiceV::Manual(m)) == m,
        that == this ==> spec_differ(this, Some(that), ChoiceV::Manual(m)) == this,
        spec_differ(this, None, ChoiceV::Manual(m)) == m,
{
}

/// Reconciling a document against an identical candidate returns it
/// unchanged in every asked field, whatever the choices say: the equality
/// short-circuit consults no choice. Only the two fixed fields take their
/// constants, and the worker's identifier is regenerated.
pub proof fn law_reconcile_unchanged(c: ConfigV, d: ConfigChoicesV, fresh: Seq<char>)
    ensures
        (spec_compare_config(c, Some(c), d, fresh) == ConfigV {
            paths: PathsV { config: spec_default_paths().config, ..c.paths },
            flaskbender: FlaskbenderV {
                upload_url: spec_default_flaskbender().upload_url,
                ..c.flaskbender
            },
            worker: WorkerV { id: fresh, ..c.worker },
            ..c
        }),
{
    assert(spec_compare_config(c, Some(c), d, fresh) =~~= ConfigV {
        paths: PathsV { config: spec_default_paths().config, ..c.paths },
        flaskbender: FlaskbenderV {
            upload_url: spec_default_flaskbender().upload_url,
            ..c.flaskbender
        },
        worker: WorkerV { id: fresh, ..c.worker },
        ..c
    });
}

/// A reconciliation never preserves the worker's identifier: the result
/// carries exactly the fresh one, so whenever the fresh identifier differs
/// from the current one — as two random identifiers do — the result's
/// differs from the current one.
pub proof fn law_identifier_regenerated(
    c: ConfigV,
    other: Option<ConfigV>,
    d: ConfigChoicesV,
    fresh: Seq<char>,
)
    ensures
        spec_compare_config(c, other, d, fresh).worker.id == fresh,
        fresh != c.worker.id ==> spec_compare_config(c, other, d, fresh).worker.id != c.worker.id,
{
}

/// Every choice of the pass keeps the proposed value.
pub open spec fn all_keep(d: ConfigChoicesV) -> bool {
    &&& d.servername is Keep
    &&& d.paths.private is Keep
    &&& d.paths.upload is Keep
    &&& d.flaskbender.upload_limit is Keep
    &&& d.flaskbender.job_cookie_name is Keep
    &&& d.rabbitmq.url is Keep
    &&& d.janitor.checking_period_seconds is Keep
    &&& d.janitor.error_deletion_min_minutes is Keep
    &&& d.janitor.error_deletion_max_minutes is Keep
    &&& d.janitor.finish_deletion_min_minutes is Keep
    &&& d.janitor.finish_deletion_max_minutes is Keep
    &&& d.janitor.cancel_deletion_min_minutes is Keep
    &&& d.janitor.cancel_deletion_max_minutes is Keep
    &&& d.worker.disklimit is Keep
    &&& d.worker.grace_period is Keep
    &&& d.worker.workload is Keep
    &&& d.worker.heart_rate_seconds is Keep
}

/// Building a document afresh while keeping every default yields exactly
/// the default document, except for the freshly drawn worker identifier.
pub proof fn law_ask_defaults(d: ConfigChoicesV, fresh: Seq<char>)
    requires
        all_keep(d),
    ensures
        (spec_compare_config(spec_default_config(), None, d, fresh) == ConfigV {
            worker: WorkerV { id: fresh, ..spec_default_worker() },
            ..spec_default_config()
        }),
{
    assert(spec_compare_config(spec_default_config(), None, d, fresh) =~~= ConfigV {
        worker: WorkerV { id: fresh, ..spec_default_worker() },
        ..spec_default_config()
    });
}

} // verus!
