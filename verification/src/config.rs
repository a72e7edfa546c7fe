//! The configuration document: the root aggregate and its sections.
//!
//! Every struct here is fully populated at all times; a missing field in
//! the stored text takes the documented default. Each type carries a view
//! (`@`) into a plain mathematical record over `Seq<char>` and integers,
//! and all contracts of the crate speak about those views.

use vstd::prelude::*;

verus! {

// ---------------------------------------------------------------------------
// Mathematical views of the document
// ---------------------------------------------------------------------------

/// View of [`Paths`].
#[verifier::ext_equal]
pub ghost struct PathsV {
    pub config: Seq<char>,
    pub private: Seq<char>,
    pub upload: Seq<char>,
}

/// View of [`Flaskbender`].
#[verifier::ext_equal]
pub ghost struct FlaskbenderV {
    pub upload_limit: u64,
    pub upload_url: Seq<char>,
    pub job_cookie_name: Seq<char>,
}

/// View of [`RabbitMQ`].
#[verifier::ext_equal]
pub ghost struct RabbitMQV {
    pub url: Seq<char>,
}

/// View of [`Janitor`].
#[verifier::ext_equal]
pub ghost struct JanitorV {
    pub checking_period_seconds: u64,
    pub error_deletion_min_minutes: u64,
    pub error_deletion_max_minutes: u64,
    pub finish_deletion_min_minutes: u64,
    pub finish_deletion_max_minutes: u64,
    pub cancel_deletion_min_minutes: u64,
    pub cancel_deletion_max_minutes: u64,
}

/// View of [`Worker`].
#[verifier::ext_equal]
pub ghost struct WorkerV {
    pub id: Seq<char>,
    pub disklimit: u64,
    pub grace_period: u64,
    pub workload: u64,
    pub heart_rate_seconds: i64,
}

/// View of [`Config`].
#[verifier::ext_equal]
pub ghost struct ConfigV {
    pub servername: Seq<char>,
    pub paths: PathsV,
    pub flaskbender: FlaskbenderV,
    pub rabbitmq: RabbitMQV,
    pub janitor: JanitorV,
    pub worker: WorkerV,
}

// ---------------------------------------------------------------------------
// The executable document
// ---------------------------------------------------------------------------

/// Filesystem locations the services work with.
#[derive(Debug)]
pub struct Paths {
    /// Where the configuration document itself lives. This field is fixed:
    /// the wizard never asks for it and always restores the default.
    pub config: String,
    /// Directory holding the generated application secret.
    pub private: String,
    /// Directory holding uploaded blendfiles and rendered frames.
    pub upload: String,
}

/// Tuning of the upload-facing web service.
#[derive(Debug)]
pub struct Flaskbender {
    /// Maximum upload size in gigabytes.
    pub upload_limit: u64,
    /// URL under which uploaded blendfiles are served. Fixed, never asked.
    pub upload_url: String,
    /// Name of the secure cookie that stores a client's job ids.
    pub job_cookie_name: String,
}

/// Message-queue connection.
#[derive(Debug)]
pub struct RabbitMQ {
    /// AMQP URL of the queue.
    pub url: String,
}

/// Timing policy of the cleanup service.
#[derive(Debug)]
pub struct Janitor {
    pub checking_period_seconds: u64,
    pub error_deletion_min_minutes: u64,
    pub error_deletion_max_minutes: u64,
    pub finish_deletion_min_minutes: u64,
    pub finish_deletion_max_minutes: u64,
    pub cancel_deletion_min_minutes: u64,
    pub cancel_deletion_max_minutes: u64,
}

/// Tuning of one render worker.
#[derive(Debug)]
pub struct Worker {
    /// Instance identifier. Regenerated fresh whenever the section is
    /// rebuilt by the wizard; never preserved across a reconciliation.
    pub id: String,
    /// Disk space to keep free, in gigabytes.
    pub disklimit: u64,
    /// How long to keep downloaded blendfiles around, in seconds.
    pub grace_period: u64,
    /// How many frames to render at once.
    pub workload: u64,
    /// Heartbeat interval in seconds.
    pub heart_rate_seconds: i64,
}

/// The root configuration document.
#[derive(Debug)]
pub struct Config {
    /// Display name of the server.
    pub servername: String,
    pub paths: Paths,
    pub flaskbender: Flaskbender,
    pub rabbitmq: RabbitMQ,
    pub janitor: Janitor,
    pub worker: Worker,
}

impl View for Paths {
    type V = PathsV;

    open spec fn view(&self) -> PathsV {
        PathsV { config: self.config@, private: self.private@, upload: self.upload@ }
    }
}

impl View for Flaskbender {
    type V = FlaskbenderV;

    open spec fn view(&self) -> FlaskbenderV {
        FlaskbenderV {
            upload_limit: self.upload_limit,
            upload_url: self.upload_url@,
            job_cookie_name: self.job_cookie_name@,
        }
    }
}

impl View for RabbitMQ {
    type V = RabbitMQV;

    open spec fn view(&self) -> RabbitMQV {
        RabbitMQV { url: self.url@ }
    }
}

impl View for Janitor {
    type V = JanitorV;

    open spec fn view(&self) -> JanitorV {
        JanitorV {
            checking_period_seconds: self.checking_period_seconds,
            error_deletion_min_minutes: self.error_deletion_min_minutes,
            error_deletion_max_minutes: self.error_deletion_max_minutes,
            finish_deletion_min_minutes: self.finish_deletion_min_minutes,
            finish_deletion_max_minutes: self.finish_deletion_max_minutes,
            cancel_deletion_min_minutes: self.cancel_deletion_min_minutes,
            cancel_deletion_max_minutes: self.cancel_deletion_max_minutes,
        }
    }
}

impl View for Worker {
    type V = WorkerV;

    open spec fn view(&self) -> WorkerV {
        WorkerV {
            id: self.id@,
            disklimit: self.disklimit,
            grace_period: self.grace_period,
            workload: self.workload,
            heart_rate_seconds: self.heart_rate_seconds,
        }
    }
}

impl View for Config {
    type V = ConfigV;

    open spec fn view(&self) -> ConfigV {
        ConfigV {
            servername: self.servername@,
            paths: self.paths@,
            flaskbender: self.flaskbender@,
            rabbitmq: self.rabbitmq@,
            janitor: self.janitor@,
            worker: self.worker@,
        }
    }
}

// ---------------------------------------------------------------------------
// Documented defaults
// ---------------------------------------------------------------------------

/// Identifier a freshly defaulted worker section carries before any wizard
/// pass has regenerated it: the all-zero identifier.
pub open spec fn spec_nil_id() -> Seq<char> {
    "00000000-0000-0000-0000-000000000000"@
}

pub open spec fn spec_default_paths() -> PathsV {
    PathsV {
        config: "/etc/bender/config.toml"@,
        private: "/var/lib/flask/private"@,
        upload: "/data/bender"@,
    }
}

pub open spec fn spec_default_flaskbender() -> FlaskbenderV {
    FlaskbenderV {
        upload_limit: 2,
        upload_url: "http://localhost:5000/blendfiles/"@,
        job_cookie_name: "bender-renderjobs"@,
    }
}

pub open spec fn spec_default_rabbitmq() -> RabbitMQV {
    RabbitMQV { url: "amqp://localhost//"@ }
}

pub open spec fn spec_default_janitor() -> JanitorV {
    JanitorV {
        checking_period_seconds: 60,
        error_deletion_min_minutes: 1440,
        error_deletion_max_minutes: 20160,
        finish_deletion_min_minutes: 1440,
        finish_deletion_max_minutes: 20160,
        cancel_deletion_min_minutes: 15,
        cancel_deletion_max_minutes: 15,
    }
}

pub open spec fn spec_default_worker() -> WorkerV {
    WorkerV {
        id: spec_nil_id(),
        disklimit: 2,
        grace_period: 60,
        workload: 1,
        heart_rate_seconds: 10,
    }
}

pub open spec fn spec_default_config() -> ConfigV {
    ConfigV {
        servername: "bender.render"@,
        paths: spec_default_paths(),
        flaskbender: spec_default_flaskbender(),
        rabbitmq: spec_default_rabbitmq(),
        janitor: spec_default_janitor(),
        worker: spec_default_worker(),
    }
}

impl Default for Paths {
    fn default() -> (r: Self)
        ensures
            r@ == spec_default_paths(),
    {
        let r = Paths {
            config: "/etc/bender/config.toml".to_owned(),
            private: "/var/lib/flask/private".to_owned(),
            upload: "/data/bender".to_owned(),
        };
        proof {
            assert(r@ =~= spec_default_paths());
        }
        r
    }
}

impl Default for Flaskbender {
    fn default() -> (r: Self)
        ensures
            r@ == spec_default_flaskbender(),
    {
        let r = Flaskbender {
            upload_limit: 2,
            upload_url: "http://localhost:5000/blendfiles/".to_owned(),
            job_cookie_name: "bender-renderjobs".to_owned(),
        };
        proof {
            assert(r@ =~= spec_default_flaskbender());
        }
        r
    }
}

impl Default for RabbitMQ {
    fn default() -> (r: Self)
        ensures
            r@ == spec_default_rabbitmq(),
    {
        let r = RabbitMQ { url: "amqp://localhost//".to_owned() };
        proof {
            assert(r@ =~= spec_default_rabbitmq());
        }
        r
    }
}

impl Default for Janitor {
    fn default() -> (r: Self)
        ensures
            r@ == spec_default_janitor(),
    {
        Janitor {
            checking_period_seconds: 60,
            error_deletion_min_minutes: 1440,
            error_deletion_max_minutes: 20160,
            finish_deletion_min_minutes: 1440,
            finish_deletion_max_minutes: 20160,
            cancel_deletion_min_minutes: 15,
            cancel_deletion_max_minutes: 15,
        }
    }
}

impl Default for Worker {
    fn default() -> (r: Self)
        ensures
            r@ == spec_default_worker(),
    {
        let r = Worker {
            id: "00000000-0000-0000-0000-000000000000".to_owned(),
            disklimit: 2,
            grace_period: 60,
            workload: 1,
            heart_rate_seconds: 10,
        };
        proof {
            assert(r@ =~= spec_default_worker());
        }
        r
    }
}

impl Default for Config {
    fn default() -> (r: Self)
        ensures
            r@ == spec_default_config(),
    {
        let r = Config {
            servername: "bender.render".to_owned(),
            paths: Paths::default(),
            flaskbender: Flaskbender::default(),
            rabbitmq: RabbitMQ::default(),
            janitor: Janitor::default(),
            worker: Worker::default(),
        };
        proof {
            assert(r@ =~= spec_default_config());
        }
        r
    }
}

// ---------------------------------------------------------------------------
// Equality: two documents are equal when their views are
// ---------------------------------------------------------------------------

impl PartialEq for Paths {
    fn eq(&self, o: &Paths) -> (r: bool)
        ensures
            r == (self@ == o@),
    {
        let r = self.config == o.config && self.private == o.private && self.upload == o.upload;
        proof {
            if r {
                assert(self@ =~= o@);
            }
        }
        r
    }
}

impl vstd::std_specs::cmp::PartialEqSpecImpl for Paths {
    open spec fn obeys_eq_spec() -> bool {
        true
    }

    open spec fn eq_spec(&self, o: &Paths) -> bool {
        self@ == o@
    }
}

impl PartialEq for Flaskbender {
    fn eq(&self, o: &Flaskbender) -> (r: bool)
        ensures
            r == (self@ == o@),
    {
        let r = self.upload_limit == o.upload_limit && self.upload_url == o.upload_url
            && self.job_cookie_name == o.job_cookie_name;
        proof {
            if r {
                assert(self@ =~= o@);
            }
        }
        r
    }
}

impl vstd::std_specs::cmp::PartialEqSpecImpl for Flaskbender {
    open spec fn obeys_eq_spec() -> bool {
        true
    }

    open spec fn eq_spec(&self, o: &Flaskbender) -> bool {
        self@ == o@
    }
}

impl PartialEq for RabbitMQ {
    fn eq(&self, o: &RabbitMQ) -> (r: bool)
        ensures
            r == (self@ == o@),
    {
        let r = self.url == o.url;
        proof {
            if r {
                assert(self@ =~= o@);
            }
        }
        r
    }
}

impl vstd::std_specs::cmp::PartialEqSpecImpl for RabbitMQ {
    open spec fn obeys_eq_spec() -> bool {
        true
    }

    open spec fn eq_spec(&self, o: &RabbitMQ) -> bool {
        self@ == o@
    }
}

impl PartialEq for Janitor {
    fn eq(&self, o: &Janitor) -> (r: bool)
        ensures
            r == (self@ == o@),
    {
        let r = self.checking_period_seconds == o.checking_period_seconds
            && self.error_deletion_min_minutes == o.error_deletion_min_minutes
            && self.error_deletion_max_minutes == o.error_deletion_max_minutes
            && self.finish_deletion_min_minutes == o.finish_deletion_min_minutes
            && self.finish_deletion_max_minutes == o.finish_deletion_max_minutes
            && self.cancel_deletion_min_minutes == o.cancel_deletion_min_minutes
            && self.cancel_deletion_max_minutes == o.cancel_deletion_max_minutes;
        proof {
            if r {
                assert(self@ =~= o@);
            }
        }
        r
    }
}

impl vstd::std_specs::cmp::PartialEqSpecImpl for Janitor {
    open spec fn obeys_eq_spec() -> bool {
        true
    }

    open spec fn eq_spec(&self, o: &Janitor) -> bool {
        self@ == o@
    }
}

impl PartialEq for Worker {
    fn eq(&self, o: &Worker) -> (r: bool)
        ensures
            r == (self@ == o@),
    {
        let r = self.id == o.id && self.disklimit == o.disklimit && self.grace_period
            == o.grace_period && self.workload == o.workload && self.heart_rate_seconds
            == o.heart_rate_seconds;
        proof {
            if r {
                assert(self@ =~= o@);
            }
        }
        r
    }
}

impl vstd::std_specs::cmp::PartialEqSpecImpl for Worker {
    open spec fn obeys_eq_spec() -> bool {
        true
    }

    open spec fn eq_spec(&self, o: &Worker) -> bool {
        self@ == o@
    }
}

impl PartialEq for Config {
    fn eq(&self, o: &Config) -> (r: bool)
        ensures
            r == (self@ == o@),
    {
        let r = self.servername == o.servername && self.paths == o.paths && self.flaskbender
            == o.flaskbender && self.rabbitmq == o.rabbitmq && self.janitor == o.janitor
            && self.worker == o.worker;
        proof {
            if r {
                assert(self@ =~= o@);
            }
        }
        r
    }
}

impl vstd::std_specs::cmp::PartialEqSpecImpl for Config {
    open spec fn obeys_eq_spec() -> bool {
        true
    }

    open spec fn eq_spec(&self, o: &Config) -> bool {
        self@ == o@
    }
}

// ---------------------------------------------------------------------------
// Small accessors
// ---------------------------------------------------------------------------

impl Paths {
    /// The directory holding uploaded blendfiles, under the upload path.
    pub fn blend(&self) -> (r: String)
        ensures
            r@ == crate::text::spec_path_push(self.upload@, "blendfiles"@),
    {
        crate::text::path_push(self.upload.as_str(), "blendfiles")
    }

    /// The directory holding rendered frames, under the upload path.
    pub fn frames(&self) -> (r: String)
        ensures
            r@ == crate::text::spec_path_push(self.upload@, "frames"@),
    {
        crate::text::path_push(self.upload.as_str(), "frames")
    }
}

impl Config {
    /// Where the application secret lives: the secret file name under the
    /// private path.
    pub fn get_appsecret_path(&self) -> (r: String)
        ensures
            r@ == crate::text::spec_path_push(self.paths.private@, "app.secret"@),
    {
        crate::text::path_push(self.paths.private.as_str(), "app.secret")
    }
}

/// How the output of the path lookup helper is read at the command-line
/// boundary: the reported path is taken when the helper reported an error
/// of its own (the caller shows it), or when a file exists at the path;
/// only a missing file at a cleanly reported path is refused.
pub fn path_output_usable(out: &str, exists: bool) -> (r: bool)
    ensures
        r == (crate::text::spec_contains(out@, "Error"@) || exists),
{
    crate::text::contains(out, "Error") || exists
}

impl Config {
    /// True exactly when the document still carries the documented defaults.
    pub fn is_default(&self) -> (r: bool)
        ensures
            r == (self@ == spec_default_config()),
    {
        self == &Self::default()
    }

    /// The documented location of the configuration document.
    pub fn location() -> (r: String)
        ensures
            r@ == spec_default_paths().config,
    {
        Self::default().paths.config
    }
}

} // verus!
