use std::str::Utf8Error;
use vstd::prelude::*;

verus! {

#[verifier::external_type_specification]
#[verifier::external_body]
pub struct ExUtf8Error(Utf8Error);

/// The text that `b` decodes to as UTF-8, or `None` where it is not valid UTF-8.
pub uninterp spec fn utf8_text(b: Seq<u8>) -> Option<Seq<char>>;

/// Relies on std::str::from_utf8: it succeeds exactly on valid UTF-8 and
/// then hands back the same bytes as text.
#[verifier::external_body]
fn decode_utf8(b: &[u8]) -> (r: Result<&str, Utf8Error>)
    ensures
        match r {
            Ok(t) => utf8_text(b@) == Some(t@),
            Err(_) => utf8_text(b@) is None,
        },
{
    std::str::from_utf8(b)
}

/// The outcome class of a native operation.
#[derive(Clone, Copy, Debug, PartialEq, Eq, Structural)]
pub enum rocksdb_Status_Code {
    kOk,
    kNotFound,
    kCorruption,
    kNotSupported,
    kInvalidArgument,
    kIOError,
    kMergeInProgress,
    kIncomplete,
    kShutdownInProgress,
    kTimedOut,
    kAborted,
    kBusy,
    kExpired,
    kTryAgain,
    kCompactionTooLarge,
    kColumnFamilyDropped,
    kMaxCode,
}

/// A finer classification within a failure class.
#[derive(Clone, Copy, Debug, PartialEq, Eq, Structural)]
pub enum rocksdb_Status_SubCode {
    kNone,
    kMutexTimeout,
    kLockTimeout,
    kLockLimit,
    kNoSpace,
    kDeadlock,
    kStaleFile,
    kMemoryLimit,
    kSpaceLimit,
    kPathNotFound,
    KMergeOperandsInsufficientCapacity,
    kManualCompactionPaused,
    kOverwritten,
    kTxnNotPrepared,
    kIOFenced,
    kMaxSubCode,
}

/// How serious a failure is, from none to unrecoverable.
#[derive(Clone, Copy, Debug, PartialEq, Eq, Structural)]
pub enum rocksdb_Status_Severity {
    kNoError,
    kSoftError,
    kHardError,
    kFatalError,
    kUnrecoverableError,
    kMaxSeverity,
}

/// The outcome of one native operation: code, sub-code, severity and an
/// optional message buffer that the status owns.
#[derive(Debug)]
pub struct rocksdb_Status {
    pub code_: rocksdb_Status_Code,
    pub subcode_: rocksdb_Status_SubCode,
    pub sev_: rocksdb_Status_Severity,
    pub state_: Option<Vec<u8>>,
}

/// What a status holds, with the message buffer seen as a sequence of bytes.
pub struct StatusView {
    pub code: rocksdb_Status_Code,
    pub sub_code: rocksdb_Status_SubCode,
    pub severity: rocksdb_Status_Severity,
    pub state: Option<Seq<u8>>,
}

impl View for rocksdb_Status {
    type V = StatusView;

    open spec fn view(&self) -> StatusView {
        StatusView {
            code: self.code_,
            sub_code: self.subcode_,
            severity: self.sev_,
            state: match self.state_ {
                Some(v) => Some(v@),
                None => None,
            },
        }
    }
}

/// The status that a call starts from: the given code, no sub-code, no
/// severity and no message.
pub open spec fn fresh_status(code: rocksdb_Status_Code) -> StatusView {
    StatusView {
        code,
        sub_code: rocksdb_Status_SubCode::kNone,
        severity: rocksdb_Status_Severity::kNoError,
        state: None,
    }
}

/// The bytes that a reader of a null-terminated copy of `b` sees: those
/// before the first zero byte, or all of `b` if it holds none.
pub open spec fn c_str(b: Seq<u8>) -> Seq<u8>
    decreases b.len(),
{
    if b.len() == 0 || b[0] == 0 {
        Seq::empty()
    } else {
        seq![b[0]] + c_str(b.drop_first())
    }
}

/// The status that `with_error` builds: the code, no sub-code, no severity,
/// and a message buffer only where the message is not empty.
pub open spec fn error_status(code: rocksdb_Status_Code, msg: Seq<u8>) -> StatusView {
    StatusView {
        code,
        sub_code: rocksdb_Status_SubCode::kNone,
        severity: rocksdb_Status_Severity::kNoError,
        state: if msg.len() == 0 { None } else { Some(c_str(msg)) },
    }
}

/// A status after its message buffer has been released.
pub open spec fn released(s: StatusView) -> StatusView {
    StatusView { state: None, ..s }
}

/// Releasing a status leaves it without a message buffer and with its code,
/// sub-code and severity as they were; releasing it again changes nothing.
pub proof fn lemma_release_idempotent(s: StatusView)
    ensures
        released(s).state is None,
        released(s).code == s.code,
        released(s).sub_code == s.sub_code,
        released(s).severity == s.severity,
        released(released(s)) == released(s),
{
}

proof fn lemma_c_str_at_stop(b: Seq<u8>, i: int)
    requires
        0 <= i <= b.len(),
        forall|j: int| 0 <= j < i ==> b[j] != 0,
        i == b.len() || b[i] == 0,
    ensures
        c_str(b) == b.take(i),
    decreases i,
{
    if i > 0 {
        let t = b.drop_first();
        assert forall|j: int| 0 <= j < i - 1 implies t[j] != 0 by {
            assert(b[j + 1] != 0);
        }
        if i - 1 < t.len() {
            assert(t[i - 1] == b[i]);
        }
        lemma_c_str_at_stop(t, i - 1);
        assert(b.take(i) =~= seq![b[0]] + t.take(i - 1));
    } else {
        assert(b.take(0) =~= Seq::<u8>::empty());
    }
}

/// Copies the bytes of `b` before its first zero byte.
fn copy_c_str(b: &[u8]) -> (r: Vec<u8>)
    ensures
        r@ == c_str(b@),
{
    let mut out: Vec<u8> = Vec::new();
    let mut i: usize = 0;
    while i < b.len() && b[i] != 0
        invariant
            i <= b@.len(),
            out@ == b@.take(i as int),
            forall|j: int| 0 <= j < i ==> b@[j] != 0,
        decreases b@.len() - i,
    {
        out.push(b[i]);
        i = i + 1;
        assert(out@ =~= b@.take(i as int));
    }
    proof {
        lemma_c_str_at_stop(b@, i as int);
    }
    out
}

impl rocksdb_Status {
    /// A status with the given code and nothing else: the state a native
    /// call is handed before it reports.
    pub fn with_code(code: rocksdb_Status_Code) -> (r: rocksdb_Status)
        ensures
            r@ == fresh_status(code),
    {
        rocksdb_Status {
            code_: code,
            subcode_: rocksdb_Status_SubCode::kNone,
            sev_: rocksdb_Status_Severity::kNoError,
            state_: None,
        }
    }

    /// Builds a failed status with the given code. A non-empty message is
    /// copied into a buffer that the status owns; an empty one leaves the
    /// status without a buffer.
    pub fn with_error(code: rocksdb_Status_Code, state: &[u8]) -> (r: rocksdb_Status)
        requires
            code != rocksdb_Status_Code::kOk,
        ensures
            r@ == error_status(code, state@),
    {
        let state_ = if state.len() != 0 {
            Some(copy_c_str(state))
        } else {
            None
        };
        rocksdb_Status {
            code_: code,
            subcode_: rocksdb_Status_SubCode::kNone,
            sev_: rocksdb_Status_Severity::kNoError,
            state_,
        }
    }

    /// Releases the message buffer, if there is one, and leaves the status
    /// without one, so that a second release does nothing.
    pub fn clear_state(&mut self)
        ensures
            final(self)@ == released(old(self)@),
        opens_invariants none
        no_unwind
    {
        if let Some(_) = &self.state_ {
            self.state_ = None;
        }
    }

    /// Whether the status reports success.
    pub fn ok(&self) -> (r: bool)
        ensures
            r == (self@.code == rocksdb_Status_Code::kOk),
    {
        self.code_ == rocksdb_Status_Code::kOk
    }

    /// The raw bytes of the message, if the status holds one.
    pub fn state(&self) -> (r: Option<&[u8]>)
        ensures
            match r {
                Some(b) => self@.state == Some(b@),
                None => self@.state is None,
            },
    {
        match &self.state_ {
            Some(v) => Some(v.as_slice()),
            None => None,
        }
    }

    /// The message as text: `Ok(None)` without a buffer, an error where the
    /// buffer is not valid UTF-8.
    pub fn message(&self) -> (r: Result<Option<&str>, Utf8Error>)
        ensures
            match self@.state {
                None => r == Ok::<Option<&str>, Utf8Error>(None),
                Some(b) => match r {
                    Ok(Some(t)) => utf8_text(b) == Some(t@),
                    Ok(None) => false,
                    Err(_) => utf8_text(b) is None,
                },
            },
    {
        match &self.state_ {
            Some(v) => match decode_utf8(v.as_slice()) {
                Ok(t) => Ok(Some(t)),
                Err(e) => Err(e),
            },
            None => Ok(None),
        }
    }

    /// The outcome class.
    pub fn code(&self) -> (r: rocksdb_Status_Code)
        ensures
            r == self@.code,
    {
        self.code_
    }

    /// How serious the failure is.
    pub fn severity(&self) -> (r: rocksdb_Status_Severity)
        ensures
            r == self@.severity,
    {
        self.sev_
    }

    /// Refines the severity; nothing else changes.
    pub fn set_severity(&mut self, severity: rocksdb_Status_Severity)
        ensures
            final(self)@ == (StatusView { severity, ..old(self)@ }),
    {
        self.sev_ = severity;
    }

    /// The finer classification of the failure.
    pub fn sub_code(&self) -> (r: rocksdb_Status_SubCode)
        ensures
            r == self@.sub_code,
    {
        self.subcode_
    }

    /// Refines the sub-code; nothing else changes.
    pub fn set_sub_code(&mut self, sub_code: rocksdb_Status_SubCode)
        ensures
            final(self)@ == (StatusView { sub_code, ..old(self)@ }),
    {
        self.subcode_ = sub_code;
    }
}

/// Dropping a status releases its message buffer.
impl Drop for rocksdb_Status {
    fn drop(&mut self)
        opens_invariants none
        no_unwind
    {
        self.clear_state();
    }
}

} // verus!
