//! Values shared by the three features.

use vstd::prelude::*;
use vstd::string::*;

verus! {

/// A point in time, counted from the Unix epoch.
#[derive(Debug, Clone, Copy, PartialEq, Eq, Structural)]
pub struct Timestamp {
    pub secs: u64,
    pub nanos: u32,
}

impl Timestamp {
    /// `self` is not later than `other`: seconds decide, then nanoseconds.
    pub open spec fn not_after(&self, other: &Timestamp) -> bool {
        self.secs < other.secs || (self.secs == other.secs && self.nanos <= other.nanos)
    }

    #[verifier::when_used_as_spec(not_after)]
    pub fn is_not_after(&self, other: &Timestamp) -> (b: bool)
        ensures
            b == self.not_after(other),
    {
        self.secs < other.secs || (self.secs == other.secs && self.nanos <= other.nanos)
    }

    /// The earlier of two points in time.
    pub open spec fn earlier(a: Timestamp, b: Timestamp) -> Timestamp {
        if a.not_after(&b) {
            a
        } else {
            b
        }
    }

    /// The later of two points in time.
    pub open spec fn later(a: Timestamp, b: Timestamp) -> Timestamp {
        if a.not_after(&b) {
            b
        } else {
            a
        }
    }

    /// Whole seconds since the epoch.
    pub fn as_secs(&self) -> (s: u64)
        ensures
            s == self.secs,
    {
        self.secs
    }
}

/// What a folder scan found: how many files matched, and the modification
/// times of the oldest and the newest of them.
#[derive(Debug, Clone, Copy, PartialEq, Eq, Structural)]
pub struct FileStats {
    pub count: usize,
    pub oldest: Option<Timestamp>,
    pub newest: Option<Timestamp>,
}

impl FileStats {
    /// Both times are present exactly when something was counted, and the
    /// oldest is not after the newest.
    pub open spec fn wf(&self) -> bool {
        &&& self.count == 0 <==> self.oldest is None
        &&& self.oldest is None <==> self.newest is None
        &&& self.oldest is Some ==> self.oldest->0.not_after(&self.newest->0)
    }

    pub fn empty() -> (stats: FileStats)
        ensures
            stats == (FileStats { count: 0, oldest: None, newest: None }),
            stats.wf(),
    {
        FileStats { count: 0, oldest: None, newest: None }
    }
}

impl Default for FileStats {
    fn default() -> (stats: FileStats)
        ensures
            stats == (FileStats { count: 0, oldest: None, newest: None }),
    {
        FileStats { count: 0, oldest: None, newest: None }
    }
}

/// What a caller may ask of a feature.
#[derive(Debug, Clone, Copy, PartialEq, Eq, Structural)]
pub enum FeatureAction {
    Enable,
    Disable,
    Refresh,
}

/// The outcome of a remediation. Expected failures, such as missing
/// administrator rights, are reported here and not as errors.
#[derive(Debug, Clone)]
pub struct OperationResult {
    pub success: bool,
    pub message: String,
    pub details: Option<String>,
    pub requires_restart: bool,
    pub requires_admin: bool,
}

/// The mathematical value of an [`OperationResult`].
pub struct OperationResultView {
    pub success: bool,
    pub message: Seq<char>,
    pub details: Option<Seq<char>>,
    pub requires_restart: bool,
    pub requires_admin: bool,
}

impl View for OperationResult {
    type V = OperationResultView;

    open spec fn view(&self) -> OperationResultView {
        OperationResultView {
            success: self.success,
            message: self.message@,
            details: match self.details {
                Some(d) => Some(d@),
                None => None,
            },
            requires_restart: self.requires_restart,
            requires_admin: self.requires_admin,
        }
    }
}

impl OperationResultView {
    /// A plain success with the given message.
    pub open spec fn succeeded(message: Seq<char>) -> OperationResultView {
        OperationResultView {
            success: true,
            message,
            details: None,
            requires_restart: false,
            requires_admin: false,
        }
    }

    /// A plain failure with the given message.
    pub open spec fn failed(message: Seq<char>) -> OperationResultView {
        OperationResultView {
            success: false,
            message,
            details: None,
            requires_restart: false,
            requires_admin: false,
        }
    }

    /// A failure that asks for administrator rights.
    pub open spec fn needs_admin(message: Seq<char>) -> OperationResultView {
        OperationResultView { requires_admin: true, ..Self::failed(message) }
    }
}

impl OperationResult {
    pub fn success(message: &str) -> (r: OperationResult)
        ensures
            r@ == OperationResultView::succeeded(message@),
    {
        OperationResult {
            success: true,
            message: String::from_str(message),
            details: None,
            requires_restart: false,
            requires_admin: false,
        }
    }

    pub fn failure(message: &str) -> (r: OperationResult)
        ensures
            r@ == OperationResultView::failed(message@),
    {
        OperationResult {
            success: false,
            message: String::from_str(message),
            details: None,
            requires_restart: false,
            requires_admin: false,
        }
    }

    pub fn with_details(self, details: &str) -> (r: OperationResult)
        ensures
            r@ == (OperationResultView { details: Some(details@), ..self@ }),
    {
        OperationResult {
            success: self.success,
            message: self.message,
            details: Some(String::from_str(details)),
            requires_restart: self.requires_restart,
            requires_admin: self.requires_admin,
        }
    }

    pub fn requires_restart(self) -> (r: OperationResult)
        ensures
            r@ == (OperationResultView { requires_restart: true, ..self@ }),
    {
        OperationResult {
            success: self.success,
            message: self.message,
            details: self.details,
            requires_restart: true,
            requires_admin: self.requires_admin,
        }
    }

    pub fn requires_admin(self) -> (r: OperationResult)
        ensures
            r@ == (OperationResultView { requires_admin: true, ..self@ }),
    {
        OperationResult {
            success: self.success,
            message: self.message,
            details: self.details,
            requires_restart: self.requires_restart,
            requires_admin: true,
        }
    }
}

} // verus!
