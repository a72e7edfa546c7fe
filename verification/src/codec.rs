//! The stored text format of the configuration document: one top-level
//! `servername` line, then one bracketed section per policy group, each with
//! its `key = value` lines. Serialization renders exactly this shape;
//! parsing accepts it back (plus blank lines, comments, any key order and
//! missing keys, which keep their defaults) and is proved to invert
//! serialization.

use vstd::prelude::*;
use vstd::string::StringSliceAdditionalSpecFns;
use crate::config::{
    Config, ConfigV, Flaskbender, FlaskbenderV, Janitor, JanitorV, Paths, PathsV, RabbitMQ,
    RabbitMQV, Worker, WorkerV, spec_default_config,
};
use crate::line::{LineItem, LineItemV, spec_parse_line, spec_str_raw, spec_val_str};
use crate::numtext::{spec_dec, spec_dec_i64, spec_parse_i64, spec_parse_u64};
use crate::lines::{spec_join, spec_split};
use crate::ConfigError;

verus! {

// ---------------------------------------------------------------------------
// Keys and line shapes
// ---------------------------------------------------------------------------

/// Characters the document's keys and section names are made of.
pub open spec fn is_key_char(c: char) -> bool {
    (0x61 <= (c as u32) <= 0x7a) || c == '_'
}

/// A well-formed key: nonempty, lowercase letters and underscores only.
pub open spec fn key_ok(k: Seq<char>) -> bool {
    k.len() >= 1 && (forall|i: int| 0 <= i < k.len() ==> is_key_char(#[trigger] k[i]))
}

/// The text of a `key = value` line.
pub open spec fn spec_kv_line(key: Seq<char>, raw: Seq<char>) -> Seq<char> {
    key + seq![' ', '=', ' '] + raw
}

/// The text of a `[name]` section header line.
pub open spec fn spec_sect_line(name: Seq<char>) -> Seq<char> {
    seq!['['] + name + seq![']']
}

/// The stored lines of a document, in the order they are written.
pub open spec fn spec_lines_of(v: ConfigV) -> Seq<Seq<char>> {
    seq![
        spec_kv_line("servername"@, spec_str_raw(v.servername)),
        Seq::<char>::empty(),
        spec_sect_line("paths"@),
        spec_kv_line("config"@, spec_str_raw(v.paths.config)),
        spec_kv_line("private"@, spec_str_raw(v.paths.private)),
        spec_kv_line("upload"@, spec_str_raw(v.paths.upload)),
        Seq::<char>::empty(),
        spec_sect_line("flaskbender"@),
        spec_kv_line("upload_limit"@, spec_dec(v.flaskbender.upload_limit as nat)),
        spec_kv_line("upload_url"@, spec_str_raw(v.flaskbender.upload_url)),
        spec_kv_line("job_cookie_name"@, spec_str_raw(v.flaskbender.job_cookie_name)),
        Seq::<char>::empty(),
        spec_sect_line("rabbitmq"@),
        spec_kv_line("url"@, spec_str_raw(v.rabbitmq.url)),
        Seq::<char>::empty(),
        spec_sect_line("janitor"@),
        spec_kv_line("checking_period_seconds"@, spec_dec(v.janitor.checking_period_seconds as nat)),
        spec_kv_line(
            "error_deletion_min_minutes"@,
            spec_dec(v.janitor.error_deletion_min_minutes as nat),
        ),
        spec_kv_line(
            "error_deletion_max_minutes"@,
            spec_dec(v.janitor.error_deletion_max_minutes as nat),
        ),
        spec_kv_line(
            "finish_deletion_min_minutes"@,
            spec_dec(v.janitor.finish_deletion_min_minutes as nat),
        ),
        spec_kv_line(
            "finish_deletion_max_minutes"@,
            spec_dec(v.janitor.finish_deletion_max_minutes as nat),
        ),
        spec_kv_line(
            "cancel_deletion_min_minutes"@,
            spec_dec(v.janitor.cancel_deletion_min_minutes as nat),
        ),
        spec_kv_line(
            "cancel_deletion_max_minutes"@,
            spec_dec(v.janitor.cancel_deletion_max_minutes as nat),
        ),
        Seq::<char>::empty(),
        spec_sect_line("worker"@),
        spec_kv_line("id"@, spec_str_raw(v.worker.id)),
        spec_kv_line("disklimit"@, spec_dec(v.worker.disklimit as nat)),
        spec_kv_line("grace_period"@, spec_dec(v.worker.grace_period as nat)),
        spec_kv_line("workload"@, spec_dec(v.worker.workload as nat)),
        spec_kv_line("heart_rate_seconds"@, spec_dec_i64(v.worker.heart_rate_seconds)),
    ]
}

/// The stored text of a document.
pub open spec fn spec_serialize(v: ConfigV) -> Seq<char> {
    spec_join(spec_lines_of(v))
}

// ---------------------------------------------------------------------------
// Reading the lines back
// ---------------------------------------------------------------------------

/// Which section the reader stands in.
pub ghost enum SectV {
    Top,
    InPaths,
    InFlask,
    InRabbit,
    InJanitor,
    InWorker,
}

/// Which section a header names.
pub open spec fn spec_sect_of(name: Seq<char>) -> Option<SectV> {
    if name == "paths"@ {
        Some(SectV::InPaths)
    } else if name == "flaskbender"@ {
        Some(SectV::InFlask)
    } else if name == "rabbitmq"@ {
        Some(SectV::InRabbit)
    } else if name == "janitor"@ {
        Some(SectV::InJanitor)
    } else if name == "worker"@ {
        Some(SectV::InWorker)
    } else {
        None
    }
}

/// What one `key = value` pair does to the document under construction:
/// sets the named field of the current section, or fails on an unknown key
/// or a value of the wrong shape.
pub open spec fn spec_apply_kv(c: ConfigV, sect: SectV, k: Seq<char>, raw: Seq<char>) -> Option<
    ConfigV,
> {
    match sect {
        SectV::Top => {
            if k == "servername"@ {
                match spec_val_str(raw) {
                    Some(v) => Some(ConfigV { servername: v, ..c }),
                    None => None,
                }
            } else {
                None
            }
        },
        SectV::InPaths => {
            if k == "config"@ {
                match spec_val_str(raw) {
                    Some(v) => Some(ConfigV { paths: PathsV { config: v, ..c.paths }, ..c }),
                    None => None,
                }
            } else if k == "private"@ {
                match spec_val_str(raw) {
                    Some(v) => Some(ConfigV { paths: PathsV { private: v, ..c.paths }, ..c }),
                    None => None,
                }
            } else if k == "upload"@ {
                match spec_val_str(raw) {
                    Some(v) => Some(ConfigV { paths: PathsV { upload: v, ..c.paths }, ..c }),
                    None => None,
                }
            } else {
                None
            }
        },
        SectV::InFlask => {
            if k == "upload_limit"@ {
                match spec_parse_u64(raw) {
                    Some(n) => Some(
                        ConfigV {
                            flaskbender: FlaskbenderV { upload_limit: n, ..c.flaskbender },
                            ..c
                        },
                    ),
                    None => None,
                }
            } else if k == "upload_url"@ {
                match spec_val_str(raw) {
                    Some(v) => Some(
                        ConfigV { flaskbender: FlaskbenderV { upload_url: v, ..c.flaskbender }, ..c },
                    ),
                    None => None,
                }
            } else if k == "job_cookie_name"@ {
                match spec_val_str(raw) {
                    Some(v) => Some(
                        ConfigV {
                            flaskbender: FlaskbenderV { job_cookie_name: v, ..c.flaskbender },
                            ..c
                        },
                    ),
                    None => None,
                }
            } else {
                None
            }
        },
        SectV::InRabbit => {
            if k == "url"@ {
                match spec_val_str(raw) {
                    Some(v) => Some(ConfigV { rabbitmq: RabbitMQV { url: v }, ..c }),
                    None => None,
                }
            } else {
                None
            }
        },
        SectV::InJanitor => {
            if k == "checking_period_seconds"@ {
                match spec_parse_u64(raw) {
                    Some(n) => Some(
                        ConfigV {
                            janitor: JanitorV { checking_period_seconds: n, ..c.janitor },
                            ..c
                        },
                    ),
                    None => None,
                }
            } else if k == "error_deletion_min_minutes"@ {
                match spec_parse_u64(raw) {
                    Some(n) => Some(
                        ConfigV {
                            janitor: JanitorV { error_deletion_min_minutes: n, ..c.janitor },
                            ..c
                        },
                    ),
                    None => None,
                }
            } else if k == "error_deletion_max_minutes"@ {
                match spec_parse_u64(raw) {
                    Some(n) => Some(
                        ConfigV {
                            janitor: JanitorV { error_deletion_max_minutes: n, ..c.janitor },
                            ..c
                        },
                    ),
                    None => None,
                }
            } else if k == "finish_deletion_min_minutes"@ {
                match spec_parse_u64(raw) {
                    Some(n) => Some(
                        ConfigV {
                            janitor: JanitorV { finish_deletion_min_minutes: n, ..c.janitor },
                            ..c
                        },
                    ),
                    None => None,
                }
            } else if k == "finish_deletion_max_minutes"@ {
                match spec_parse_u64(raw) {
                    Some(n) => Some(
                        ConfigV {
                            janitor: JanitorV { finish_deletion_max_minutes: n, ..c.janitor },
                            ..c
                        },
                    ),
                    None => None,
                }
            } else if k == "cancel_deletion_min_minutes"@ {
                match spec_parse_u64(raw) {
                    Some(n) => Some(
                        ConfigV {
                            janitor: JanitorV { cancel_deletion_min_minutes: n, ..c.janitor },
                            ..c
                        },
                    ),
                    None => None,
                }
            } else if k == "cancel_deletion_max_minutes"@ {
                match spec_parse_u64(raw) {
                    Some(n) => Some(
                        ConfigV {
                            janitor: JanitorV { cancel_deletion_max_minutes: n, ..c.janitor },
                            ..c
                        },
                    ),
                    None => None,
                }
            } else {
                None
            }
        },
        SectV::InWorker => {
            if k == "id"@ {
                match spec_val_str(raw) {
                    Some(v) => Some(ConfigV { worker: WorkerV { id: v, ..c.worker }, ..c }),
                    None => None,
                }
            } else if k == "disklimit"@ {
                match spec_parse_u64(raw) {
                    Some(n) => Some(ConfigV { worker: WorkerV { disklimit: n, ..c.worker }, ..c }),
                    None => None,
                }
            } else if k == "grace_period"@ {
                match spec_parse_u64(raw) {
                    Some(n) => Some(
                        ConfigV { worker: WorkerV { grace_period: n, ..c.worker }, ..c },
                    ),
                    None => None,
                }
            } else if k == "workload"@ {
                match spec_parse_u64(raw) {
                    Some(n) => Some(ConfigV { worker: WorkerV { workload: n, ..c.worker }, ..c }),
                    None => None,
                }
            } else if k == "heart_rate_seconds"@ {
                match spec_parse_i64(raw) {
                    Some(n) => Some(
                        ConfigV { worker: WorkerV { heart_rate_seconds: n, ..c.worker }, ..c },
                    ),
                    None => None,
                }
            } else {
                None
            }
        },
    }
}

/// Reading the lines from `i` on, starting from document `c` in section
/// `sect`: each line refines the document; a malformed line or unknown name
/// fails the whole read.
pub open spec fn spec_fold_from(c: ConfigV, sect: SectV, ls: Seq<Seq<char>>, i: int) -> Option<
    ConfigV,
>
    decreases ls.len() - i,
{
    if i < 0 || i >= ls.len() {
        Some(c)
    } else {
        match spec_parse_line(ls[i]) {
            None => None,
            Some(LineItemV::Blank) => spec_fold_from(c, sect, ls, i + 1),
            Some(LineItemV::Sect(name)) => match spec_sect_of(name) {
                Some(s2) => spec_fold_from(c, s2, ls, i + 1),
                None => None,
            },
            Some(LineItemV::Kv(k, raw)) => match spec_apply_kv(c, sect, k, raw) {
                Some(c2) => spec_fold_from(c2, sect, ls, i + 1),
                None => None,
            },
        }
    }
}

/// What parsing a stored text yields: every absent field keeps its default.
pub open spec fn spec_deserialize(s: Seq<char>) -> Option<ConfigV> {
    spec_fold_from(spec_default_config(), SectV::Top, spec_split(s), 0)
}

// ---------------------------------------------------------------------------
// The written shapes parse back
// ---------------------------------------------------------------------------

/// A written `key = value` line parses back to exactly that pair, for any
/// value text that has no blank at either end.
pub proof fn lemma_parse_kv(key: Seq<char>, raw: Seq<char>)
    requires
        key_ok(key),
        raw.len() >= 1,
        !crate::line::is_ws(raw[0]),
        !crate::line::is_ws(raw.last()),
    ensures
        spec_parse_line(spec_kv_line(key, raw)) == Some(LineItemV::Kv(key, raw)),
{
    let l = spec_kv_line(key, raw);
    let mid = seq![' ', '=', ' '];
    assert(l.len() == key.len() + 3 + raw.len());
    assert(l[0] == key[0]);
    assert(l.last() == raw.last());
    assert(is_key_char(key[0]));
    assert(!crate::line::is_ws(l[0]));
    crate::line::lemma_trim_noop(l);
    let t = crate::line::spec_trim(l);
    assert(t == l);
    assert(t[0] != '#');
    assert(t[0] != '[');
    let e = key.len() as int + 1;
    assert forall|i: int| 0 <= i < e implies t[i] != '=' by {
        if i < key.len() {
            assert(t[i] == key[i]);
            assert(is_key_char(key[i]));
        } else {
            assert(t[i] == ' ');
        }
    }
    assert(t[e] == '=');
    crate::line::lemma_find_eq_at(t, e);
    assert(crate::line::find_eq(t) == e);
    assert(e < t.len());
    let keypart = t.take(e);
    assert(keypart =~= key + seq![' ']);
    assert(keypart.last() == ' ');
    assert(keypart.drop_last() =~= key);
    assert(crate::line::trim_front(keypart) == keypart);
    assert(crate::line::trim_back(keypart) == crate::line::trim_back(key));
    assert(key.last() == key[key.len() - 1]);
    assert(is_key_char(key.last()));
    assert(crate::line::trim_back(key) == key);
    assert(crate::line::spec_trim(keypart) == key);
    let rawpart = t.skip(e + 1);
    assert(rawpart =~= seq![' '] + raw);
    assert(rawpart[0] == ' ');
    assert(rawpart.skip(1) =~= raw);
    assert(crate::line::trim_front(rawpart) == crate::line::trim_front(raw));
    assert(crate::line::trim_front(raw) == raw);
    assert(crate::line::trim_back(raw) == raw);
    assert(crate::line::spec_trim(rawpart) == raw);
}

/// A written section header parses back to exactly that section name.
pub proof fn lemma_parse_sect(name: Seq<char>)
    requires
        key_ok(name),
    ensures
        spec_parse_line(spec_sect_line(name)) == Some(LineItemV::Sect(name)),
{
    let l = spec_sect_line(name);
    assert(l[0] == '[');
    assert(l.last() == ']');
    crate::line::lemma_trim_noop(l);
    let t = crate::line::spec_trim(l);
    assert(t == l);
    assert(t.len() >= 2);
    assert(t.subrange(1, t.len() - 1) =~= name);
}

/// A blank line parses to nothing.
pub proof fn lemma_parse_blank()
    ensures
        spec_parse_line(Seq::<char>::empty()) == Some(LineItemV::Blank),
{
    crate::line::lemma_trim_noop(Seq::<char>::empty());
}

// ---------------------------------------------------------------------------
// The written lines hold no line break
// ---------------------------------------------------------------------------

/// A written `key = value` line holds no line break when its value text
/// holds none.
pub proof fn lemma_kv_line_clean(key: Seq<char>, raw: Seq<char>)
    requires
        key_ok(key),
        crate::lines::line_clean(raw),
    ensures
        crate::lines::line_clean(spec_kv_line(key, raw)),
{
    let l = spec_kv_line(key, raw);
    assert forall|i: int| 0 <= i < l.len() implies l[i] != '\n' by {
        if i < key.len() {
            assert(l[i] == key[i]);
            assert(is_key_char(key[i]));
        } else if i < key.len() + 3 {
            assert(l[i] == seq![' ', '=', ' '][i - key.len()]);
        } else {
            assert(l[i] == raw[i - key.len() - 3]);
        }
    }
}

/// A written section header holds no line break.
pub proof fn lemma_sect_line_clean(name: Seq<char>)
    requires
        key_ok(name),
    ensures
        crate::lines::line_clean(spec_sect_line(name)),
{
    let l = spec_sect_line(name);
    assert forall|i: int| 0 <= i < l.len() implies l[i] != '\n' by {
        if 1 <= i < 1 + name.len() {
            assert(l[i] == name[i - 1]);
            assert(is_key_char(name[i - 1]));
        }
    }
}

/// A written string value holds no line break and no blank at either end.
pub proof fn lemma_str_raw_shape(v: Seq<char>)
    ensures
        crate::lines::line_clean(spec_str_raw(v)),
        spec_str_raw(v).len() >= 2,
        !crate::line::is_ws(spec_str_raw(v)[0]),
        !crate::line::is_ws(spec_str_raw(v).last()),
    {
    let raw = spec_str_raw(v);
    crate::escape::lemma_escape_no_newline(v);
    assert(raw[0] == '"');
    assert(raw.last() == '"');
    assert forall|i: int| 0 <= i < raw.len() implies raw[i] != '\n' by {
        if 1 <= i < 1 + crate::escape::spec_escape(v).len() {
            assert(raw[i] == crate::escape::spec_escape(v)[i - 1]);
        }
    }
}

/// A written unsigned number holds no line break and no blank at either end.
pub proof fn lemma_dec_raw_shape(n: nat)
    ensures
        crate::lines::line_clean(spec_dec(n)),
        spec_dec(n).len() >= 1,
        !crate::line::is_ws(spec_dec(n)[0]),
        !crate::line::is_ws(spec_dec(n).last()),
{
    crate::numtext::lemma_dec_props(n);
    let d = spec_dec(n);
    assert forall|i: int| 0 <= i < d.len() implies d[i] != '\n' by {
        assert(crate::numtext::is_digit(d[i]));
    }
    assert(crate::numtext::is_digit(d[0]));
    assert(crate::numtext::is_digit(d.last()));
}

/// A written signed number holds no line break and no blank at either end.
pub proof fn lemma_dec_i64_raw_shape(n: i64)
    ensures
        crate::lines::line_clean(spec_dec_i64(n)),
        spec_dec_i64(n).len() >= 1,
        !crate::line::is_ws(spec_dec_i64(n)[0]),
        !crate::line::is_ws(spec_dec_i64(n).last()),
{
    let d = spec_dec_i64(n);
    if n >= 0 {
        lemma_dec_raw_shape(n as nat);
    } else {
        let m = (-(n as int)) as nat;
        lemma_dec_raw_shape(m);
        let md = spec_dec(m);
        assert(d == seq!['-'] + md);
        assert(d[0] == '-');
        assert(d.last() == md.last());
        assert forall|i: int| 0 <= i < d.len() implies d[i] != '\n' by {
            if i >= 1 {
                assert(d[i] == md[i - 1]);
            }
        }
    }
}

// ---------------------------------------------------------------------------
// The round trip
// ---------------------------------------------------------------------------

/// Parsing a rendered document yields the document again, whatever its
/// field values: serialization loses nothing.
#[verifier::rlimit(100)]
pub proof fn lemma_round_trip(v: ConfigV)
    ensures
        spec_deserialize(spec_serialize(v)) == Some(v),
{
    reveal_strlit("servername");
    reveal_strlit("paths");
    reveal_strlit("config");
    reveal_strlit("private");
    reveal_strlit("upload");
    reveal_strlit("flaskbender");
    reveal_strlit("upload_limit");
    reveal_strlit("upload_url");
    reveal_strlit("job_cookie_name");
    reveal_strlit("rabbitmq");
    reveal_strlit("url");
    reveal_strlit("janitor");
    reveal_strlit("checking_period_seconds");
    reveal_strlit("error_deletion_min_minutes");
    reveal_strlit("error_deletion_max_minutes");
    reveal_strlit("finish_deletion_min_minutes");
    reveal_strlit("finish_deletion_max_minutes");
    reveal_strlit("cancel_deletion_min_minutes");
    reveal_strlit("cancel_deletion_max_minutes");
    reveal_strlit("worker");
    reveal_strlit("id");
    reveal_strlit("disklimit");
    reveal_strlit("grace_period");
    reveal_strlit("workload");
    reveal_strlit("heart_rate_seconds");
    // every written name is a well-formed key
    assert(key_ok("servername"@));
    assert(key_ok("paths"@));
    assert(key_ok("config"@));
    assert(key_ok("private"@));
    assert(key_ok("upload"@));
    assert(key_ok("flaskbender"@));
    assert(key_ok("upload_limit"@));
    assert(key_ok("upload_url"@));
    assert(key_ok("job_cookie_name"@));
    assert(key_ok("rabbitmq"@));
    assert(key_ok("url"@));
    assert(key_ok("janitor"@));
    assert(key_ok("checking_period_seconds"@));
    assert(key_ok("error_deletion_min_minutes"@));
    assert(key_ok("error_deletion_max_minutes"@));
    assert(key_ok("finish_deletion_min_minutes"@));
    assert(key_ok("finish_deletion_max_minutes"@));
    assert(key_ok("cancel_deletion_min_minutes"@));
    assert(key_ok("cancel_deletion_max_minutes"@));
    assert(key_ok("worker"@));
    assert(key_ok("id"@));
    assert(key_ok("disklimit"@));
    assert(key_ok("grace_period"@));
    assert(key_ok("workload"@));
    assert(key_ok("heart_rate_seconds"@));
    // names of equal length that share a section differ in some character
    assert(("upload"@)[0] != ("config"@)[0]);
    assert(("error_deletion_max_minutes"@)[16] != ("error_deletion_min_minutes"@)[16]);
    assert(("finish_deletion_max_minutes"@)[17] != ("finish_deletion_min_minutes"@)[17]);
    assert(("cancel_deletion_min_minutes"@)[0] != ("finish_deletion_min_minutes"@)[0]);
    assert(("cancel_deletion_min_minutes"@)[0] != ("finish_deletion_max_minutes"@)[0]);
    assert(("cancel_deletion_max_minutes"@)[0] != ("finish_deletion_min_minutes"@)[0]);
    assert(("cancel_deletion_max_minutes"@)[0] != ("finish_deletion_max_minutes"@)[0]);
    assert(("cancel_deletion_max_minutes"@)[17] != ("cancel_deletion_min_minutes"@)[17]);
    // the written values parse back
    lemma_str_raw_shape(v.servername);
    lemma_str_raw_shape(v.paths.config);
    lemma_str_raw_shape(v.paths.private);
    lemma_str_raw_shape(v.paths.upload);
    lemma_str_raw_shape(v.flaskbender.upload_url);
    lemma_str_raw_shape(v.flaskbender.job_cookie_name);
    lemma_str_raw_shape(v.rabbitmq.url);
    lemma_str_raw_shape(v.worker.id);
    crate::line::lemma_val_str_round_trip(v.servername);
    crate::line::lemma_val_str_round_trip(v.paths.config);
    crate::line::lemma_val_str_round_trip(v.paths.private);
    crate::line::lemma_val_str_round_trip(v.paths.upload);
    crate::line::lemma_val_str_round_trip(v.flaskbender.upload_url);
    crate::line::lemma_val_str_round_trip(v.flaskbender.job_cookie_name);
    crate::line::lemma_val_str_round_trip(v.rabbitmq.url);
    crate::line::lemma_val_str_round_trip(v.worker.id);
    lemma_dec_raw_shape(v.flaskbender.upload_limit as nat);
    lemma_dec_raw_shape(v.janitor.checking_period_seconds as nat);
    lemma_dec_raw_shape(v.janitor.error_deletion_min_minutes as nat);
    lemma_dec_raw_shape(v.janitor.error_deletion_max_minutes as nat);
    lemma_dec_raw_shape(v.janitor.finish_deletion_min_minutes as nat);
    lemma_dec_raw_shape(v.janitor.finish_deletion_max_minutes as nat);
    lemma_dec_raw_shape(v.janitor.cancel_deletion_min_minutes as nat);
    lemma_dec_raw_shape(v.janitor.cancel_deletion_max_minutes as nat);
    lemma_dec_raw_shape(v.worker.disklimit as nat);
    lemma_dec_raw_shape(v.worker.grace_period as nat);
    lemma_dec_raw_shape(v.worker.workload as nat);
    lemma_dec_i64_raw_shape(v.worker.heart_rate_seconds);
    crate::numtext::lemma_dec_round_trip(v.flaskbender.upload_limit);
    crate::numtext::lemma_dec_round_trip(v.janitor.checking_period_seconds);
    crate::numtext::lemma_dec_round_trip(v.janitor.error_deletion_min_minutes);
    crate::numtext::lemma_dec_round_trip(v.janitor.error_deletion_max_minutes);
    crate::numtext::lemma_dec_round_trip(v.janitor.finish_deletion_min_minutes);
    crate::numtext::lemma_dec_round_trip(v.janitor.finish_deletion_max_minutes);
    crate::numtext::lemma_dec_round_trip(v.janitor.cancel_deletion_min_minutes);
    crate::numtext::lemma_dec_round_trip(v.janitor.cancel_deletion_max_minutes);
    crate::numtext::lemma_dec_round_trip(v.worker.disklimit);
    crate::numtext::lemma_dec_round_trip(v.worker.grace_period);
    crate::numtext::lemma_dec_round_trip(v.worker.workload);
    crate::numtext::lemma_dec_i64_round_trip(v.worker.heart_rate_seconds);
    // the written lines parse back
    lemma_parse_kv("servername"@, spec_str_raw(v.servername));
    lemma_parse_kv("config"@, spec_str_raw(v.paths.config));
    lemma_parse_kv("private"@, spec_str_raw(v.paths.private));
    lemma_parse_kv("upload"@, spec_str_raw(v.paths.upload));
    lemma_parse_kv("upload_limit"@, spec_dec(v.flaskbender.upload_limit as nat));
    lemma_parse_kv("upload_url"@, spec_str_raw(v.flaskbender.upload_url));
    lemma_parse_kv("job_cookie_name"@, spec_str_raw(v.flaskbender.job_cookie_name));
    lemma_parse_kv("url"@, spec_str_raw(v.rabbitmq.url));
    lemma_parse_kv("checking_period_seconds"@, spec_dec(v.janitor.checking_period_seconds as nat));
    lemma_parse_kv(
        "error_deletion_min_minutes"@,
        spec_dec(v.janitor.error_deletion_min_minutes as nat),
    );
    lemma_parse_kv(
        "error_deletion_max_minutes"@,
        spec_dec(v.janitor.error_deletion_max_minutes as nat),
    );
    lemma_parse_kv(
        "finish_deletion_min_minutes"@,
        spec_dec(v.janitor.finish_deletion_min_minutes as nat),
    );
    lemma_parse_kv(
        "finish_deletion_max_minutes"@,
        spec_dec(v.janitor.finish_deletion_max_minutes as nat),
    );
    lemma_parse_kv(
        "cancel_deletion_min_minutes"@,
        spec_dec(v.janitor.cancel_deletion_min_minutes as nat),
    );
    lemma_parse_kv(
        "cancel_deletion_max_minutes"@,
        spec_dec(v.janitor.cancel_deletion_max_minutes as nat),
    );
    lemma_parse_kv("id"@, spec_str_raw(v.worker.id));
    lemma_parse_kv("disklimit"@, spec_dec(v.worker.disklimit as nat));
    lemma_parse_kv("grace_period"@, spec_dec(v.worker.grace_period as nat));
    lemma_parse_kv("workload"@, spec_dec(v.worker.workload as nat));
    lemma_parse_kv("heart_rate_seconds"@, spec_dec_i64(v.worker.heart_rate_seconds));
    lemma_parse_sect("paths"@);
    lemma_parse_sect("flaskbender"@);
    lemma_parse_sect("rabbitmq"@);
    lemma_parse_sect("janitor"@);
    lemma_parse_sect("worker"@);
    lemma_parse_blank();
    // the written lines hold no line break, so the join splits back
    lemma_kv_line_clean("servername"@, spec_str_raw(v.servername));
    lemma_kv_line_clean("config"@, spec_str_raw(v.paths.config));
    lemma_kv_line_clean("private"@, spec_str_raw(v.paths.private));
    lemma_kv_line_clean("upload"@, spec_str_raw(v.paths.upload));
    lemma_kv_line_clean("upload_limit"@, spec_dec(v.flaskbender.upload_limit as nat));
    lemma_kv_line_clean("upload_url"@, spec_str_raw(v.flaskbender.upload_url));
    lemma_kv_line_clean("job_cookie_name"@, spec_str_raw(v.flaskbender.job_cookie_name));
    lemma_kv_line_clean("url"@, spec_str_raw(v.rabbitmq.url));
    lemma_kv_line_clean(
        "checking_period_seconds"@,
        spec_dec(v.janitor.checking_period_seconds as nat),
    );
    lemma_kv_line_clean(
        "error_deletion_min_minutes"@,
        spec_dec(v.janitor.error_deletion_min_minutes as nat),
    );
    lemma_kv_line_clean(
        "error_deletion_max_minutes"@,
        spec_dec(v.janitor.error_deletion_max_minutes as nat),
    );
    lemma_kv_line_clean(
        "finish_deletion_min_minutes"@,
        spec_dec(v.janitor.finish_deletion_min_minutes as nat),
    );
    lemma_kv_line_clean(
        "finish_deletion_max_minutes"@,
        spec_dec(v.janitor.finish_deletion_max_minutes as nat),
    );
    lemma_kv_line_clean(
        "cancel_deletion_min_minutes"@,
        spec_dec(v.janitor.cancel_deletion_min_minutes as nat),
    );
    lemma_kv_line_clean(
        "cancel_deletion_max_minutes"@,
        spec_dec(v.janitor.cancel_deletion_max_minutes as nat),
    );
    lemma_kv_line_clean("id"@, spec_str_raw(v.worker.id));
    lemma_kv_line_clean("disklimit"@, spec_dec(v.worker.disklimit as nat));
    lemma_kv_line_clean("grace_period"@, spec_dec(v.worker.grace_period as nat));
    lemma_kv_line_clean("workload"@, spec_dec(v.worker.workload as nat));
    lemma_kv_line_clean("heart_rate_seconds"@, spec_dec_i64(v.worker.heart_rate_seconds));
    lemma_sect_line_clean("paths"@);
    lemma_sect_line_clean("flaskbender"@);
    lemma_sect_line_clean("rabbitmq"@);
    lemma_sect_line_clean("janitor"@);
    lemma_sect_line_clean("worker"@);
    let ls = spec_lines_of(v);
    assert(crate::lines::all_clean(ls));
    crate::lines::lemma_split_join(ls);
    assert(spec_split(spec_serialize(v)) == ls);
    // walk the lines: every field of the default is overwritten in turn
    let c0 = spec_default_config();
    let c1 = ConfigV { servername: v.servername, ..c0 };
    let c2 = ConfigV { paths: PathsV { config: v.paths.config, ..c1.paths }, ..c1 };
    let c3 = ConfigV { paths: PathsV { private: v.paths.private, ..c2.paths }, ..c2 };
    let c4 = ConfigV { paths: PathsV { upload: v.paths.upload, ..c3.paths }, ..c3 };
    let c5 = ConfigV {
        flaskbender: FlaskbenderV { upload_limit: v.flaskbender.upload_limit, ..c4.flaskbender },
        ..c4
    };
    let c6 = ConfigV {
        flaskbender: FlaskbenderV { upload_url: v.flaskbender.upload_url, ..c5.flaskbender },
        ..c5
    };
    let c7 = ConfigV {
        flaskbender: FlaskbenderV {
            job_cookie_name: v.flaskbender.job_cookie_name,
            ..c6.flaskbender
        },
        ..c6
    };
    let c8 = ConfigV { rabbitmq: RabbitMQV { url: v.rabbitmq.url }, ..c7 };
    let c9 = ConfigV {
        janitor: JanitorV {
            checking_period_seconds: v.janitor.checking_period_seconds,
            ..c8.janitor
        },
        ..c8
    };
    let c10 = ConfigV {
        janitor: JanitorV {
            error_deletion_min_minutes: v.janitor.error_deletion_min_minutes,
            ..c9.janitor
        },
        ..c9
    };
    let c11 = ConfigV {
        janitor: JanitorV {
            error_deletion_max_minutes: v.janitor.error_deletion_max_minutes,
            ..c10.janitor
        },
        ..c10
    };
    let c12 = ConfigV {
        janitor: JanitorV {
            finish_deletion_min_minutes: v.janitor.finish_deletion_min_minutes,
            ..c11.janitor
        },
        ..c11
    };
    let c13 = ConfigV {
        janitor: JanitorV {
            finish_deletion_max_minutes: v.janitor.finish_deletion_max_minutes,
            ..c12.janitor
        },
        ..c12
    };
    let c14 = ConfigV {
        janitor: JanitorV {
            cancel_deletion_min_minutes: v.janitor.cancel_deletion_min_minutes,
            ..c13.janitor
        },
        ..c13
    };
    let c15 = ConfigV {
        janitor: JanitorV {
            cancel_deletion_max_minutes: v.janitor.cancel_deletion_max_minutes,
            ..c14.janitor
        },
        ..c14
    };
    let c16 = ConfigV { worker: WorkerV { id: v.worker.id, ..c15.worker }, ..c15 };
    let c17 = ConfigV { worker: WorkerV { disklimit: v.worker.disklimit, ..c16.worker }, ..c16 };
    let c18 = ConfigV {
        worker: WorkerV { grace_period: v.worker.grace_period, ..c17.worker },
        ..c17
    };
    let c19 = ConfigV { worker: WorkerV { workload: v.worker.workload, ..c18.worker }, ..c18 };
    let c20 = ConfigV {
        worker: WorkerV { heart_rate_seconds: v.worker.heart_rate_seconds, ..c19.worker },
        ..c19
    };
    assert(spec_fold_from(c0, SectV::Top, ls, 0) == spec_fold_from(c1, SectV::Top, ls, 1));
    assert(spec_fold_from(c1, SectV::Top, ls, 1) == spec_fold_from(c1, SectV::Top, ls, 2));
    assert(spec_fold_from(c1, SectV::Top, ls, 2) == spec_fold_from(c1, SectV::InPaths, ls, 3));
    assert(spec_fold_from(c1, SectV::InPaths, ls, 3) == spec_fold_from(c2, SectV::InPaths, ls, 4));
    assert(spec_fold_from(c2, SectV::InPaths, ls, 4) == spec_fold_from(c3, SectV::InPaths, ls, 5));
    assert(spec_fold_from(c3, SectV::InPaths, ls, 5) == spec_fold_from(c4, SectV::InPaths, ls, 6));
    assert(spec_fold_from(c4, SectV::InPaths, ls, 6) == spec_fold_from(c4, SectV::InPaths, ls, 7));
    assert(spec_fold_from(c4, SectV::InPaths, ls, 7) == spec_fold_from(c4, SectV::InFlask, ls, 8));
    assert(spec_fold_from(c4, SectV::InFlask, ls, 8) == spec_fold_from(c5, SectV::InFlask, ls, 9));
    assert(spec_fold_from(c5, SectV::InFlask, ls, 9) == spec_fold_from(c6, SectV::InFlask, ls, 10));
    assert(spec_fold_from(c6, SectV::InFlask, ls, 10) == spec_fold_from(
        c7,
        SectV::InFlask,
        ls,
        11,
    ));
    assert(spec_fold_from(c7, SectV::InFlask, ls, 11) == spec_fold_from(
        c7,
        SectV::InFlask,
        ls,
        12,
    ));
    assert(spec_fold_from(c7, SectV::InFlask, ls, 12) == spec_fold_from(
        c7,
        SectV::InRabbit,
        ls,
        13,
    ));
    assert(spec_fold_from(c7, SectV::InRabbit, ls, 13) == spec_fold_from(
        c8,
        SectV::InRabbit,
        ls,
        14,
    ));
    assert(spec_fold_from(c8, SectV::InRabbit, ls, 14) == spec_fold_from(
        c8,
        SectV::InRabbit,
        ls,
        15,
    ));
    assert(spec_fold_from(c8, SectV::InRabbit, ls, 15) == spec_fold_from(
        c8,
        SectV::InJanitor,
        ls,
        16,
    ));
    assert(spec_fold_from(c8, SectV::InJanitor, ls, 16) == spec_fold_from(
        c9,
        SectV::InJanitor,
        ls,
        17,
    ));
    assert(spec_fold_from(c9, SectV::InJanitor, ls, 17) == spec_fold_from(
        c10,
        SectV::InJanitor,
        ls,
        18,
    ));
    assert(spec_fold_from(c10, SectV::InJanitor, ls, 18) == spec_fold_from(
        c11,
        SectV::InJanitor,
        ls,
        19,
    ));
    assert(spec_fold_from(c11, SectV::InJanitor, ls, 19) == spec_fold_from(
        c12,
        SectV::InJanitor,
        ls,
        20,
    ));
    assert(spec_fold_from(c12, SectV::InJanitor, ls, 20) == spec_fold_from(
        c13,
        SectV::InJanitor,
        ls,
        21,
    ));
    assert(spec_fold_from(c13, SectV::InJanitor, ls, 21) == spec_fold_from(
        c14,
        SectV::InJanitor,
        ls,
        22,
    ));
    assert(spec_fold_from(c14, SectV::InJanitor, ls, 22) == spec_fold_from(
        c15,
        SectV::InJanitor,
        ls,
        23,
    ));
    assert(spec_fold_from(c15, SectV::InJanitor, ls, 23) == spec_fold_from(
        c15,
        SectV::InJanitor,
        ls,
        24,
    ));
    assert(spec_fold_from(c15, SectV::InJanitor, ls, 24) == spec_fold_from(
        c15,
        SectV::InWorker,
        ls,
        25,
    ));
    assert(spec_fold_from(c15, SectV::InWorker, ls, 25) == spec_fold_from(
        c16,
        SectV::InWorker,
        ls,
        26,
    ));
    assert(spec_fold_from(c16, SectV::InWorker, ls, 26) == spec_fold_from(
        c17,
        SectV::InWorker,
        ls,
        27,
    ));
    assert(spec_fold_from(c17, SectV::InWorker, ls, 27) == spec_fold_from(
        c18,
        SectV::InWorker,
        ls,
        28,
    ));
    assert(spec_fold_from(c18, SectV::InWorker, ls, 28) == spec_fold_from(
        c19,
        SectV::InWorker,
        ls,
        29,
    ));
    assert(spec_fold_from(c19, SectV::InWorker, ls, 29) == spec_fold_from(
        c20,
        SectV::InWorker,
        ls,
        30,
    ));
    assert(spec_fold_from(c20, SectV::InWorker, ls, 30) == Some(c20));
    assert(c20 =~~= v);
}

/// The byte round trip: the rendered bytes are valid UTF-8 and parse back
/// to the document.
pub proof fn lemma_round_trip_bytes(v: ConfigV)
    ensures
        vstd::utf8::valid_utf8(vstd::utf8::encode_utf8(spec_serialize(v))),
        spec_deserialize(
            vstd::utf8::decode_utf8(vstd::utf8::encode_utf8(spec_serialize(v))),
        ) == Some(v),
{
    vstd::utf8::encode_utf8_valid_utf8(spec_serialize(v));
    vstd::utf8::encode_utf8_decode_utf8(spec_serialize(v));
    lemma_round_trip(v);
}

// ---------------------------------------------------------------------------
// Executable serialization
// ---------------------------------------------------------------------------

fn kv_line_str(key: &str, val: &str) -> (r: Vec<char>)
    ensures
        r@ == spec_kv_line(key@, spec_str_raw(val@)),
{
    let mut l = crate::text::str_to_chars(key);
    l.push(' ');
    l.push('=');
    l.push(' ');
    l.push('"');
    let vc = crate::text::str_to_chars(val);
    let esc = crate::escape::escape_chars(vc.as_slice());
    crate::text::append_chars(&mut l, esc.as_slice());
    l.push('"');
    proof {
        assert(l@ =~= spec_kv_line(key@, spec_str_raw(val@)));
    }
    l
}

fn kv_line_u64(key: &str, n: u64) -> (r: Vec<char>)
    ensures
        r@ == spec_kv_line(key@, spec_dec(n as nat)),
{
    let mut l = crate::text::str_to_chars(key);
    l.push(' ');
    l.push('=');
    l.push(' ');
    let d = crate::numtext::u64_to_dec(n);
    crate::text::append_chars(&mut l, d.as_slice());
    proof {
        assert(l@ =~= spec_kv_line(key@, spec_dec(n as nat)));
    }
    l
}

fn kv_line_i64(key: &str, n: i64) -> (r: Vec<char>)
    ensures
        r@ == spec_kv_line(key@, spec_dec_i64(n)),
{
    let mut l = crate::text::str_to_chars(key);
    l.push(' ');
    l.push('=');
    l.push(' ');
    let d = crate::numtext::i64_to_dec(n);
    crate::text::append_chars(&mut l, d.as_slice());
    proof {
        assert(l@ =~= spec_kv_line(key@, spec_dec_i64(n)));
    }
    l
}

fn sect_line(name: &str) -> (r: Vec<char>)
    ensures
        r@ == spec_sect_line(name@),
{
    let mut l: Vec<char> = Vec::new();
    l.push('[');
    let nc = crate::text::str_to_chars(name);
    crate::text::append_chars(&mut l, nc.as_slice());
    l.push(']');
    proof {
        assert(l@ =~= spec_sect_line(name@));
    }
    l
}

impl Config {
    /// The stored lines of this document.
    fn serialize_lines(&self) -> (r: Vec<Vec<char>>)
        ensures
            r.deep_view() == spec_lines_of(self@),
    {
        let mut ls: Vec<Vec<char>> = Vec::new();
        ls.push(kv_line_str("servername", self.servername.as_str()));
        ls.push(Vec::new());
        ls.push(sect_line("paths"));
        ls.push(kv_line_str("config", self.paths.config.as_str()));
        ls.push(kv_line_str("private", self.paths.private.as_str()));
        ls.push(kv_line_str("upload", self.paths.upload.as_str()));
        ls.push(Vec::new());
        ls.push(sect_line("flaskbender"));
        ls.push(kv_line_u64("upload_limit", self.flaskbender.upload_limit));
        ls.push(kv_line_str("upload_url", self.flaskbender.upload_url.as_str()));
        ls.push(kv_line_str("job_cookie_name", self.flaskbender.job_cookie_name.as_str()));
        ls.push(Vec::new());
        ls.push(sect_line("rabbitmq"));
        ls.push(kv_line_str("url", self.rabbitmq.url.as_str()));
        ls.push(Vec::new());
        ls.push(sect_line("janitor"));
        ls.push(kv_line_u64("checking_period_seconds", self.janitor.checking_period_seconds));
        ls.push(kv_line_u64("error_deletion_min_minutes", self.janitor.error_deletion_min_minutes));
        ls.push(kv_line_u64("error_deletion_max_minutes", self.janitor.error_deletion_max_minutes));
        ls.push(
            kv_line_u64("finish_deletion_min_minutes", self.janitor.finish_deletion_min_minutes),
        );
        ls.push(
            kv_line_u64("finish_deletion_max_minutes", self.janitor.finish_deletion_max_minutes),
        );
        ls.push(
            kv_line_u64("cancel_deletion_min_minutes", self.janitor.cancel_deletion_min_minutes),
        );
        ls.push(
            kv_line_u64("cancel_deletion_max_minutes", self.janitor.cancel_deletion_max_minutes),
        );
        ls.push(Vec::new());
        ls.push(sect_line("worker"));
        ls.push(kv_line_str("id", self.worker.id.as_str()));
        ls.push(kv_line_u64("disklimit", self.worker.disklimit));
        ls.push(kv_line_u64("grace_period", self.worker.grace_period));
        ls.push(kv_line_u64("workload", self.worker.workload));
        ls.push(kv_line_i64("heart_rate_seconds", self.worker.heart_rate_seconds));
        proof {
            assert(ls.deep_view() =~~= spec_lines_of(self@));
        }
        ls
    }

    /// Render the document as its stored text.
    pub fn serialize(&self) -> (r: Result<String, ConfigError>)
        ensures
            r matches Ok(s) && s@ == spec_serialize(self@),
    {
        let ls = self.serialize_lines();
        let joined = crate::lines::join_lines(&ls);
        Ok(crate::text::chars_to_string(joined.as_slice()))
    }

    /// Render the document as the bytes of its stored text.
    pub fn serialize_to_u8(&self) -> (r: Result<Vec<u8>, ConfigError>)
        ensures
            r matches Ok(b) && b@ == vstd::utf8::encode_utf8(spec_serialize(self@)),
    {
        let s = match self.serialize() {
            Ok(s) => s,
            Err(e) => {
                return Err(e);
            },
        };
        Ok(vstd::slice::slice_to_vec(s.as_str().as_bytes()))
    }
}

// ---------------------------------------------------------------------------
// Executable parsing
// ---------------------------------------------------------------------------

/// Relies on `core::str::from_utf8`: it succeeds exactly on valid UTF-8
/// and returns the string made of those bytes.
#[verifier::external_body]
fn str_from_utf8(v: &[u8]) -> (r: Option<&str>)
    ensures
        match r {
            Some(s) => vstd::utf8::valid_utf8(v@) && s.spec_bytes() == v@,
            None => !vstd::utf8::valid_utf8(v@),
        },
{
    core::str::from_utf8(v).ok()
}

/// Which section the reader stands in.
pub enum Sect {
    Top,
    InPaths,
    InFlask,
    InRabbit,
    InJanitor,
    InWorker,
}

impl View for Sect {
    type V = SectV;

    open spec fn view(&self) -> SectV {
        match self {
            Sect::Top => SectV::Top,
            Sect::InPaths => SectV::InPaths,
            Sect::InFlask => SectV::InFlask,
            Sect::InRabbit => SectV::InRabbit,
            Sect::InJanitor => SectV::InJanitor,
            Sect::InWorker => SectV::InWorker,
        }
    }
}

impl Config {
    /// Parse a stored text back into a document. Absent fields keep their
    /// defaults; a malformed line, an unknown name or a value of the wrong
    /// shape is refused.
    pub fn deserialize(s: &str) -> (r: Result<Config, ConfigError>)
        ensures
            match r {
                Ok(c) => spec_deserialize(s@) == Some(c@),
                Err(e) => spec_deserialize(s@) == None::<ConfigV> && e == ConfigError::Parse,
            },
    {
        let cs = crate::text::str_to_chars(s);
        let lines = crate::lines::split_lines(cs.as_slice());
        let ghost lv = lines.deep_view();
        let kw_paths = crate::text::str_to_chars("paths");
        let kw_flaskbender = crate::text::str_to_chars("flaskbender");
        let kw_rabbitmq = crate::text::str_to_chars("rabbitmq");
        let kw_janitor = crate::text::str_to_chars("janitor");
        let kw_worker = crate::text::str_to_chars("worker");
        let kw_servername = crate::text::str_to_chars("servername");
        let kw_config = crate::text::str_to_chars("config");
        let kw_private = crate::text::str_to_chars("private");
        let kw_upload = crate::text::str_to_chars("upload");
        let kw_upload_limit = crate::text::str_to_chars("upload_limit");
        let kw_upload_url = crate::text::str_to_chars("upload_url");
        let kw_job_cookie_name = crate::text::str_to_chars("job_cookie_name");
        let kw_url = crate::text::str_to_chars("url");
        let kw_checking = crate::text::str_to_chars("checking_period_seconds");
        let kw_err_min = crate::text::str_to_chars("error_deletion_min_minutes");
        let kw_err_max = crate::text::str_to_chars("error_deletion_max_minutes");
        let kw_fin_min = crate::text::str_to_chars("finish_deletion_min_minutes");
        let kw_fin_max = crate::text::str_to_chars("finish_deletion_max_minutes");
        let kw_can_min = crate::text::str_to_chars("cancel_deletion_min_minutes");
        let kw_can_max = crate::text::str_to_chars("cancel_deletion_max_minutes");
        let kw_id = crate::text::str_to_chars("id");
        let kw_disklimit = crate::text::str_to_chars("disklimit");
        let kw_grace_period = crate::text::str_to_chars("grace_period");
        let kw_workload = crate::text::str_to_chars("workload");
        let kw_heart_rate = crate::text::str_to_chars("heart_rate_seconds");
        let mut cfg = Config::default();
        let mut sect = Sect::Top;
        let n = lines.len();
        let mut i: usize = 0;
        while i < n
            invariant
                n == lines@.len(),
                lv == lines.deep_view(),
                lv == spec_split(s@),
                lv.len() == n,
                i <= n,
                kw_paths@ == "paths"@,
                kw_flaskbender@ == "flaskbender"@,
                kw_rabbitmq@ == "rabbitmq"@,
                kw_janitor@ == "janitor"@,
                kw_worker@ == "worker"@,
                kw_servername@ == "servername"@,
                kw_config@ == "config"@,
                kw_private@ == "private"@,
                kw_upload@ == "upload"@,
                kw_upload_limit@ == "upload_limit"@,
                kw_upload_url@ == "upload_url"@,
                kw_job_cookie_name@ == "job_cookie_name"@,
                kw_url@ == "url"@,
                kw_checking@ == "checking_period_seconds"@,
                kw_err_min@ == "error_deletion_min_minutes"@,
                kw_err_max@ == "error_deletion_max_minutes"@,
                kw_fin_min@ == "finish_deletion_min_minutes"@,
                kw_fin_max@ == "finish_deletion_max_minutes"@,
                kw_can_min@ == "cancel_deletion_min_minutes"@,
                kw_can_max@ == "cancel_deletion_max_minutes"@,
                kw_id@ == "id"@,
                kw_disklimit@ == "disklimit"@,
                kw_grace_period@ == "grace_period"@,
                kw_workload@ == "workload"@,
                kw_heart_rate@ == "heart_rate_seconds"@,
                spec_fold_from(spec_default_config(), SectV::Top, lv, 0) == spec_fold_from(
                    cfg@,
                    sect@,
                    lv,
                    i as int,
                ),
            decreases n - i,
        {
            let ghost c0 = cfg@;
            let ghost s0 = sect@;
            proof {
                assert(lv[i as int] =~= lines@[i as int]@);
            }
            match crate::line::parse_line(lines[i].as_slice()) {
                None => {
                    proof {
                        assert(spec_fold_from(c0, s0, lv, i as int) == None::<ConfigV>);
                    }
                    return Err(ConfigError::Parse);
                },
                Some(LineItem::Blank) => {
                },
                Some(LineItem::Sect(name)) => {
                    if crate::text::chars_eq(name.as_slice(), kw_paths.as_slice()) {
                        sect = Sect::InPaths;
                    } else if crate::text::chars_eq(name.as_slice(), kw_flaskbender.as_slice()) {
                        sect = Sect::InFlask;
                    } else if crate::text::chars_eq(name.as_slice(), kw_rabbitmq.as_slice()) {
                        sect = Sect::InRabbit;
                    } else if crate::text::chars_eq(name.as_slice(), kw_janitor.as_slice()) {
                        sect = Sect::InJanitor;
                    } else if crate::text::chars_eq(name.as_slice(), kw_worker.as_slice()) {
                        sect = Sect::InWorker;
                    } else {
                        proof {
                            assert(spec_sect_of(name@) == None::<SectV>);
                            assert(spec_fold_from(c0, s0, lv, i as int) == None::<ConfigV>);
                        }
                        return Err(ConfigError::Parse);
                    }
                },
                Some(LineItem::Kv(k, raw)) => {
                    let ok: bool = match sect {
                        Sect::Top => {
                            if crate::text::chars_eq(k.as_slice(), kw_servername.as_slice()) {
                                match crate::line::val_str(raw.as_slice()) {
                                    Some(v) => {
                                        cfg.servername = crate::text::chars_to_string(v.as_slice());
                                        true
                                    },
                                    None => false,
                                }
                            } else {
                                false
                            }
                        },
                        Sect::InPaths => {
                            if crate::text::chars_eq(k.as_slice(), kw_config.as_slice()) {
                                match crate::line::val_str(raw.as_slice()) {
                                    Some(v) => {
                                        cfg.paths.config = crate::text::chars_to_string(
                                            v.as_slice(),
                                        );
                                        true
                                    },
                                    None => false,
                                }
                            } else if crate::text::chars_eq(k.as_slice(), kw_private.as_slice()) {
                                match crate::line::val_str(raw.as_slice()) {
                                    Some(v) => {
                                        cfg.paths.private = crate::text::chars_to_string(
                                            v.as_slice(),
                                        );
                                        true
                                    },
                                    None => false,
                                }
                            } else if crate::text::chars_eq(k.as_slice(), kw_upload.as_slice()) {
                                match crate::line::val_str(raw.as_slice()) {
                                    Some(v) => {
                                        cfg.paths.upload = crate::text::chars_to_string(
                                            v.as_slice(),
                                        );
                                        true
                                    },
                                    None => false,
                                }
                            } else {
                                false
                            }
                        },
                        Sect::InFlask => {
                            if crate::text::chars_eq(k.as_slice(), kw_upload_limit.as_slice()) {
                                match crate::numtext::parse_u64(raw.as_slice()) {
                                    Some(nv) => {
                                        cfg.flaskbender.upload_limit = nv;
                                        true
                                    },
                                    None => false,
                                }
                            } else if crate::text::chars_eq(k.as_slice(), kw_upload_url.as_slice()) {
                                match crate::line::val_str(raw.as_slice()) {
                                    Some(v) => {
                                        cfg.flaskbender.upload_url = crate::text::chars_to_string(
                                            v.as_slice(),
                                        );
                                        true
                                    },
                                    None => false,
                                }
                            } else if crate::text::chars_eq(
                                k.as_slice(),
                                kw_job_cookie_name.as_slice(),
                            ) {
                                match crate::line::val_str(raw.as_slice()) {
                                    Some(v) => {
                                        cfg.flaskbender.job_cookie_name =
                                            crate::text::chars_to_string(v.as_slice());
                                        true
                                    },
                                    None => false,
                                }
                            } else {
                                false
                            }
                        },
                        Sect::InRabbit => {
                            if crate::text::chars_eq(k.as_slice(), kw_url.as_slice()) {
                                match crate::line::val_str(raw.as_slice()) {
                                    Some(v) => {
                                        cfg.rabbitmq.url = crate::text::chars_to_string(
                                            v.as_slice(),
                                        );
                                        true
                                    },
                                    None => false,
                                }
                            } else {
                                false
                            }
                        },
                        Sect::InJanitor => {
                            if crate::text::chars_eq(k.as_slice(), kw_checking.as_slice()) {
                                match crate::numtext::parse_u64(raw.as_slice()) {
                                    Some(nv) => {
                                        cfg.janitor.checking_period_seconds = nv;
                                        true
                                    },
                                    None => false,
                                }
                            } else if crate::text::chars_eq(k.as_slice(), kw_err_min.as_slice()) {
                                match crate::numtext::parse_u64(raw.as_slice()) {
                                    Some(nv) => {
                                        cfg.janitor.error_deletion_min_minutes = nv;
                                        true
                                    },
                                    None => false,
                                }
                            } else if crate::text::chars_eq(k.as_slice(), kw_err_max.as_slice()) {
                                match crate::numtext::parse_u64(raw.as_slice()) {
                                    Some(nv) => {
                                        cfg.janitor.error_deletion_max_minutes = nv;
                                        true
                                    },
                                    None => false,
                                }
                            } else if crate::text::chars_eq(k.as_slice(), kw_fin_min.as_slice()) {
                                match crate::numtext::parse_u64(raw.as_slice()) {
                                    Some(nv) => {
                                        cfg.janitor.finish_deletion_min_minutes = nv;
                                        true
                                    },
                                    None => false,
                                }
                            } else if crate::text::chars_eq(k.as_slice(), kw_fin_max.as_slice()) {
                                match crate::numtext::parse_u64(raw.as_slice()) {
                                    Some(nv) => {
                                        cfg.janitor.finish_deletion_max_minutes = nv;
                                        true
                                    },
                                    None => false,
                                }
                            } else if crate::text::chars_eq(k.as_slice(), kw_can_min.as_slice()) {
                                match crate::numtext::parse_u64(raw.as_slice()) {
                                    Some(nv) => {
                                        cfg.janitor.cancel_deletion_min_minutes = nv;
                                        true
                                    },
                                    None => false,
                                }
                            } else if crate::text::chars_eq(k.as_slice(), kw_can_max.as_slice()) {
                                match crate::numtext::parse_u64(raw.as_slice()) {
                                    Some(nv) => {
                                        cfg.janitor.cancel_deletion_max_minutes = nv;
                                        true
                                    },
                                    None => false,
                                }
                            } else {
                                false
                            }
                        },
                        Sect::InWorker => {
                            if crate::text::chars_eq(k.as_slice(), kw_id.as_slice()) {
                                match crate::line::val_str(raw.as_slice()) {
                                    Some(v) => {
                                        cfg.worker.id = crate::text::chars_to_string(v.as_slice());
                                        true
                                    },
                                    None => false,
                                }
                            } else if crate::text::chars_eq(k.as_slice(), kw_disklimit.as_slice()) {
                                match crate::numtext::parse_u64(raw.as_slice()) {
                                    Some(nv) => {
                                        cfg.worker.disklimit = nv;
                                        true
                                    },
                                    None => false,
                                }
                            } else if crate::text::chars_eq(
                                k.as_slice(),
                                kw_grace_period.as_slice(),
                            ) {
                                match crate::numtext::parse_u64(raw.as_slice()) {
                                    Some(nv) => {
                                        cfg.worker.grace_period = nv;
                                        true
                                    },
                                    None => false,
                                }
                            } else if crate::text::chars_eq(k.as_slice(), kw_workload.as_slice()) {
                                match crate::numtext::parse_u64(raw.as_slice()) {
                                    Some(nv) => {
                                        cfg.worker.workload = nv;
                                        true
                                    },
                                    None => false,
                                }
                            } else if crate::text::chars_eq(k.as_slice(), kw_heart_rate.as_slice()) {
                                match crate::numtext::parse_i64(raw.as_slice()) {
                                    Some(nv) => {
                                        cfg.worker.heart_rate_seconds = nv;
                                        true
                                    },
                                    None => false,
                                }
                            } else {
                                false
                            }
                        },
                    };
                    if !ok {
                        proof {
                            assert(spec_apply_kv(c0, s0, k@, raw@) == None::<ConfigV>);
                            assert(spec_fold_from(c0, s0, lv, i as int) == None::<ConfigV>);
                        }
                        return Err(ConfigError::Parse);
                    }
                    proof {
                        assert(spec_apply_kv(c0, s0, k@, raw@) == Some(cfg@)) by {
                            assert(cfg@ =~~= spec_apply_kv(c0, s0, k@, raw@).unwrap());
                        }
                    }
                },
            }
            proof {
                assert(spec_fold_from(c0, s0, lv, i as int) == spec_fold_from(
                    cfg@,
                    sect@,
                    lv,
                    i as int + 1,
                ));
            }
            i += 1;
        }
        proof {
            assert(spec_fold_from(cfg@, sect@, lv, n as int) == Some(cfg@));
        }
        Ok(cfg)
    }

    /// Parse a stored text given as bytes. The bytes must be valid UTF-8
    /// holding a well-formed document.
    pub fn deserialize_from_u8(v: &[u8]) -> (r: Result<Config, ConfigError>)
        ensures
            match r {
                Ok(c) => vstd::utf8::valid_utf8(v@) && spec_deserialize(
                    vstd::utf8::decode_utf8(v@),
                ) == Some(c@),
                Err(e) => (!vstd::utf8::valid_utf8(v@) || spec_deserialize(
                    vstd::utf8::decode_utf8(v@),
                ) == None::<ConfigV>) && e == ConfigError::Parse,
            },
    {
        match str_from_utf8(v) {
            Some(s) => {
                proof {
                    vstd::utf8::encode_utf8_decode_utf8(s@);
                }
                Config::deserialize(s)
            },
            None => Err(ConfigError::Parse),
        }
    }
}

} // verus!
