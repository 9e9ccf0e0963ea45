//! The session registry: discovers the default output device and the
//! per-process audio sessions, and unifies them behind name-based lookup.
//!
//! Discovery runs as an ordered state machine. Each step is gated on the one
//! before it and degrades cleanly when called out of order. The host calls
//! themselves (runtime initialization, device enumeration, process
//! inspection) are performed by the surrounding layer, which hands this
//! module their outcomes as plain values; every decision about those values
//! is made, and verified, here.

use vstd::prelude::*;
use vstd::string::*;
use crate::session::{ApplicationSession, EndPointSession, Session};

verus! {

/// Threading mode requested for the host's component-object runtime.
#[derive(Clone, Copy, Debug, PartialEq, Eq, Structural)]
pub enum CoinitMode {
    MultiTreaded,
    ApartmentThreaded,
}

/// Selects the threading mode to initialize the host runtime with: the
/// requested one, or the multithreaded default when none is given.
pub fn effective_coinit_mode(coinit_mode: Option<CoinitMode>) -> (r: CoinitMode)
    ensures
        coinit_mode is Some ==> r == coinit_mode->0,
        coinit_mode is None ==> r is MultiTreaded,
{
    match coinit_mode {
        Some(m) => m,
        None => CoinitMode::MultiTreaded,
    }
}

/// How a discovery step ended.
#[derive(Clone, Copy, Debug, PartialEq, Eq, Structural)]
pub enum StepOutcome {
    /// The step ran and the registry was updated.
    Completed,
    /// The step's prerequisite step has not completed; nothing changed.
    OutOfOrder,
    /// The host could not supply what the step needs; nothing changed.
    HostFailure,
}

/// What the host reported about one enumerated audio session, before any of
/// the per-entry decisions are made.
#[derive(Debug)]
pub struct ProcessSessionInfo {
    /// Whether the extended session-control interface could be obtained.
    pub has_extended_control: bool,
    /// The owning process id; zero is the sentinel for system-level or
    /// already-terminated sessions.
    pub pid: u32,
    /// Whether the process could be opened for limited query access.
    pub process_opened: bool,
    /// How many bytes the image-path read produced; zero means the read
    /// failed.
    pub bytes_read: u32,
    /// The raw bounded image-path buffer, meaningful up to its first null.
    pub image_bytes: Vec<u8>,
    /// Handle of the per-process volume-control capability, when it could be
    /// resolved.
    pub volume_control: Option<u64>,
    /// Freshly generated correlation token for the session.
    pub token: u128,
}

/// The default render device and its volume-control capability, as resolved
/// by the host.
#[derive(Clone, Copy, Debug, PartialEq, Eq, Structural)]
pub struct DefaultEndpoint {
    /// Handle of the device itself.
    pub device: u64,
    /// Handle of the device-level volume-control capability.
    pub endpoint_volume: u64,
}

/// Index of the first null byte, or the length when there is none.
pub open spec fn nul_index(s: Seq<u8>) -> int
    decreases s.len(),
{
    if s.len() == 0 {
        0
    } else if s[0] == 0 {
        0
    } else {
        1 + nul_index(s.drop_first())
    }
}

/// The buffer's meaningful contents: everything before the first null.
pub open spec fn nul_prefix(s: Seq<u8>) -> Seq<u8> {
    s.take(nul_index(s))
}

proof fn lemma_nul_index_at(s: Seq<u8>, i: int)
    requires
        0 <= i <= s.len(),
        forall|j: int| 0 <= j < i ==> s[j] != 0,
        i < s.len() ==> s[i] == 0,
    ensures
        nul_index(s) == i,
    decreases i,
{
    if i == 0 {
    } else {
        assert(s[0] != 0);
        lemma_nul_index_at(s.drop_first(), i - 1);
    }
}

/// Copies the buffer's contents up to (and excluding) its first null byte.
pub fn truncate_at_nul(buf: &Vec<u8>) -> (r: Vec<u8>)
    ensures
        r@ == nul_prefix(buf@),
{
    let mut r: Vec<u8> = Vec::new();
    let mut i: usize = 0;
    while i < buf.len() && buf[i] != 0
        invariant
            0 <= i <= buf.len(),
            r@ == buf@.take(i as int),
            forall|j: int| 0 <= j < i ==> buf@[j] != 0,
        decreases buf.len() - i,
    {
        r.push(buf[i]);
        i = i + 1;
        proof {
            assert(r@ =~= buf@.take(i as int));
        }
    }
    proof {
        lemma_nul_index_at(buf@, i as int);
    }
    r
}

/// Index of the last path separator, or -1 when there is none.
pub open spec fn last_sep_index(s: Seq<char>) -> int
    decreases s.len(),
{
    if s.len() == 0 {
        -1
    } else if s[s.len() - 1] == '\\' {
        s.len() - 1
    } else {
        last_sep_index(s.drop_last())
    }
}

proof fn lemma_last_sep_step(s: Seq<char>, i: int)
    requires
        0 <= i < s.len(),
    ensures
        s[i] == '\\' ==> last_sep_index(s.take(i + 1)) == i,
        s[i] != '\\' ==> last_sep_index(s.take(i + 1)) == last_sep_index(s.take(i)),
{
    let t = s.take(i + 1);
    assert(t.len() == i + 1);
    assert(t[i] == s[i]);
    assert(t.drop_last() =~= s.take(i));
}

/// The path segment after the last separator.
pub open spec fn file_part(s: Seq<char>) -> Seq<char> {
    s.subrange(last_sep_index(s) + 1, s.len() as int)
}

/// The executable suffix stripped from display names.
pub open spec fn exe_suffix() -> Seq<char> {
    seq!['.', 'e', 'x', 'e']
}

/// Drops a trailing executable suffix, when present.
pub open spec fn strip_exe(s: Seq<char>) -> Seq<char> {
    if s.len() >= 4 && s.subrange(s.len() - 4, s.len() as int) == exe_suffix() {
        s.subrange(0, s.len() - 4)
    } else {
        s
    }
}

/// The display name an application session derives from a process image
/// path: the segment after the last path separator, without a trailing
/// executable suffix.
pub open spec fn session_name_of(path: Seq<char>) -> Seq<char> {
    strip_exe(file_part(path))
}

/// Derives a session display name from a process image path.
pub fn derive_session_name(path: &str) -> (r: String)
    ensures
        r@ == session_name_of(path@),
{
    let n = path.unicode_len();
    let mut sep: Option<usize> = None;
    let mut i: usize = 0;
    while i < n
        invariant
            n == path@.len(),
            0 <= i <= n,
            match sep {
                None => last_sep_index(path@.take(i as int)) == -1,
                Some(k) => k < i && last_sep_index(path@.take(i as int)) == k,
            },
        decreases n - i,
    {
        let c = path.get_char(i);
        proof {
            lemma_last_sep_step(path@, i as int);
        }
        if c == '\\' {
            sep = Some(i);
        }
        i = i + 1;
    }
    proof {
        assert(path@.take(n as int) =~= path@);
    }
    let start = match sep {
        None => 0,
        Some(k) => k + 1,
    };
    let base = path.substring_char(start, n);
    proof {
        assert(base@ =~= file_part(path@));
    }
    let blen = base.unicode_len();
    if blen >= 4 && base.get_char(blen - 4) == '.' && base.get_char(blen - 3) == 'e'
        && base.get_char(blen - 2) == 'x' && base.get_char(blen - 1) == 'e' {
        proof {
            assert(base@.subrange(blen - 4, blen as int) =~= exe_suffix());
        }
        let stem = base.substring_char(0, blen - 4);
        proof {
            assert(stem@ =~= strip_exe(base@));
        }
        String::from_str(stem)
    } else {
        proof {
            if base@.len() >= 4 && base@.subrange(blen - 4, blen as int) == exe_suffix() {
                assert(base@[blen - 4] == '.');
                assert(base@[blen - 3] == 'e');
                assert(base@[blen - 2] == 'x');
                assert(base@[blen - 1] == 'e');
            }
            assert(base@ =~= strip_exe(base@));
        }
        String::from_str(base)
    }
}

/// Relies on String::from_utf8: it succeeds exactly on valid UTF-8 input and
/// decodes it to the input's character sequence.
#[verifier::external_body]
fn decode_utf8_bytes(bytes: &Vec<u8>) -> (r: Option<String>)
    ensures
        r is Some <==> vstd::utf8::valid_utf8(bytes@),
        r is Some ==> r->0@ == vstd::utf8::decode_utf8(bytes@),
{
    String::from_utf8(bytes.clone()).ok()
}

/// Whether an enumerated entry survives every per-entry decision and yields
/// an application session.
pub open spec fn admissible(e: ProcessSessionInfo) -> bool {
    &&& e.has_extended_control
    &&& e.pid != 0
    &&& e.process_opened
    &&& e.bytes_read > 0
    &&& vstd::utf8::valid_utf8(nul_prefix(e.image_bytes@))
    &&& e.volume_control is Some
}

/// The entries that survive the per-entry decisions, in enumeration order.
pub open spec fn admitted(s: Seq<ProcessSessionInfo>) -> Seq<ProcessSessionInfo>
    decreases s.len(),
{
    if s.len() == 0 {
        Seq::empty()
    } else if admissible(s.last()) {
        admitted(s.drop_last()).push(s.last())
    } else {
        admitted(s.drop_last())
    }
}

proof fn lemma_admitted_step(s: Seq<ProcessSessionInfo>, i: int)
    requires
        0 <= i < s.len(),
    ensures
        admissible(s[i]) ==> admitted(s.take(i + 1)) == admitted(s.take(i)).push(s[i]),
        !admissible(s[i]) ==> admitted(s.take(i + 1)) == admitted(s.take(i)),
{
    let t = s.take(i + 1);
    assert(t.len() == i + 1);
    assert(t.last() == s[i]);
    assert(t.drop_last() =~= s.take(i));
}

/// Whether a session is the application session built from an entry.
pub open spec fn matches_entry(s: Session, e: ProcessSessionInfo) -> bool {
    match s {
        Session::Application(a) => {
            &&& a.simple_audio_volume == e.volume_control->0
            &&& a.guid == e.token
            &&& a.name@ == session_name_of(
                vstd::utf8::decode_utf8(nul_prefix(e.image_bytes@)),
            )
        },
        Session::EndPoint(_) => false,
    }
}

/// The session registry. It owns the handles of the host objects resolved so
/// far and the ordered collection of sessions built from them.
#[derive(Debug)]
pub struct AudioController {
    /// Handle of the default render device, once resolved.
    pub default_device: Option<u64>,
    /// Handle of the device enumerator, once acquired.
    pub imm_device_enumerator: Option<u64>,
    /// The sessions, in construction order: the endpoint session first when
    /// present, then one entry per admitted process session.
    pub sessions: Vec<Session>,
}

/// A name-lookup hit: the element at index `i` is the first one, in
/// insertion order, whose name matches exactly.
pub open spec fn matched_at(sessions: Seq<Session>, name: Seq<char>, i: int) -> bool {
    &&& 0 <= i < sessions.len()
    &&& sessions[i].spec_name() == name
    &&& forall|j: int| 0 <= j < i ==> sessions[j].spec_name() != name
}

impl AudioController {
    /// The registry invariant: the session list opens with the endpoint
    /// session, named "master", exactly when the default device has been
    /// resolved, and every later element is an application session.
    pub open spec fn wf(&self) -> bool {
        &&& self.sessions@.len() > 0 ==> (self.sessions@[0] is EndPoint
            && self.sessions@[0].spec_name() == "master"@)
        &&& forall|i: int| 1 <= i < self.sessions@.len() ==> self.sessions@[i] is Application
        &&& (self.default_device is None <==> self.sessions@.len() == 0)
    }

    /// Starts a registry with nothing discovered yet. The surrounding layer
    /// initializes the host runtime with the mode that
    /// `effective_coinit_mode` selects and exits the process when that
    /// fails; the registry itself starts empty either way.
    pub fn init(coinit_mode: Option<CoinitMode>) -> (r: AudioController)
        ensures
            r.wf(),
            r.default_device is None,
            r.imm_device_enumerator is None,
            r.sessions@.len() == 0,
    {
        let _ = coinit_mode;
        AudioController { default_device: None, imm_device_enumerator: None, sessions: Vec::new() }
    }

    /// Records the device-enumerator handle the host produced. A missing
    /// handle is an unrecoverable initialization failure: nothing is
    /// recorded and the caller is told to treat it as fatal.
    pub fn get_sessions(&mut self, enumerator: Option<u64>) -> (r: bool)
        requires
            old(self).wf(),
        ensures
            final(self).wf(),
            final(self).default_device == old(self).default_device,
            final(self).sessions == old(self).sessions,
            enumerator is Some ==> r && final(self).imm_device_enumerator == enumerator,
            enumerator is None ==> !r && final(self).imm_device_enumerator == old(self).imm_device_enumerator,
    {
        match enumerator {
            Some(h) => {
                self.imm_device_enumerator = Some(h);
                true
            },
            None => false,
        }
    }

    /// Installs the default endpoint the host resolved: records the device
    /// and appends the endpoint session, named "master". Requires the
    /// enumerator step to have completed and runs at most once; out of
    /// order, the registry is left untouched. A missing resolution is a
    /// host failure the caller treats as fatal.
    pub fn get_default_audio_endpoint_volume_control(
        &mut self,
        resolution: Option<DefaultEndpoint>,
    ) -> (r: StepOutcome)
        requires
            old(self).wf(),
        ensures
            final(self).wf(),
            final(self).imm_device_enumerator == old(self).imm_device_enumerator,
            (old(self).imm_device_enumerator is None || old(self).default_device is Some) ==> {
                &&& r is OutOfOrder
                &&& final(self).default_device == old(self).default_device
                &&& final(self).sessions == old(self).sessions
            },
            (old(self).imm_device_enumerator is Some && old(self).default_device is None
                && resolution is None) ==> {
                &&& r is HostFailure
                &&& final(self).default_device == old(self).default_device
                &&& final(self).sessions == old(self).sessions
            },
            (old(self).imm_device_enumerator is Some && old(self).default_device is None
                && resolution is Some) ==> {
                &&& r is Completed
                &&& final(self).default_device == Some(resolution->0.device)
                &&& final(self).sessions@.len() == 1
                &&& final(self).sessions@[0] is EndPoint
                &&& final(self).sessions@[0].spec_handle() == resolution->0.endpoint_volume
                &&& final(self).sessions@[0].spec_name() == "master"@
            },
    {
        if self.imm_device_enumerator.is_none() {
            return StepOutcome::OutOfOrder;
        }
        if self.default_device.is_some() {
            return StepOutcome::OutOfOrder;
        }
        match resolution {
            None => StepOutcome::HostFailure,
            Some(res) => {
                self.default_device = Some(res.device);
                let master = String::from_str("master");
                self.sessions.push(
                    Session::EndPoint(EndPointSession::new(res.endpoint_volume, master)),
                );
                StepOutcome::Completed
            },
        }
    }

    /// Walks the host's session enumeration and appends one application
    /// session per admitted entry, in enumeration order. Requires the
    /// default device to have been resolved; out of order, the registry is
    /// left untouched. `None` entries mean the session manager or its
    /// enumerator was unavailable, which drops the whole step. Entries that
    /// fail any per-entry decision are dropped one by one, never aborting
    /// the walk.
    pub fn get_all_process_sessions(&mut self, entries: Option<Vec<ProcessSessionInfo>>) -> (r:
        StepOutcome)
        requires
            old(self).wf(),
        ensures
            final(self).wf(),
            final(self).default_device == old(self).default_device,
            final(self).imm_device_enumerator == old(self).imm_device_enumerator,
            old(self).default_device is None ==> {
                &&& r is OutOfOrder
                &&& final(self).sessions == old(self).sessions
            },
            (old(self).default_device is Some && entries is None) ==> {
                &&& r is HostFailure
                &&& final(self).sessions == old(self).sessions
            },
            (old(self).default_device is Some && entries is Some) ==> {
                &&& r is Completed
                &&& final(self).sessions@.len() == old(self).sessions@.len() + admitted(
                    entries->0@,
                ).len()
                &&& forall|j: int|
                    0 <= j < old(self).sessions@.len() ==> final(self).sessions@[j] == old(self).sessions@[j]
                &&& forall|m: int|
                    0 <= m < admitted(entries->0@).len() ==> matches_entry(
                        #[trigger] final(self).sessions@[old(self).sessions@.len() + m],
                        admitted(entries->0@)[m],
                    )
            },
    {
        if self.default_device.is_none() {
            return StepOutcome::OutOfOrder;
        }
        let entries = match entries {
            None => {
                return StepOutcome::HostFailure;
            },
            Some(v) => v,
        };
        let ghost all = entries@;
        let ghost base = self.sessions@;
        let mut k: usize = 0;
        while k < entries.len()
            invariant
                entries@ == all,
                0 <= k <= all.len(),
                self.wf(),
                self.default_device is Some,
                self.default_device == old(self).default_device,
                self.imm_device_enumerator == old(self).imm_device_enumerator,
                base == old(self).sessions@,
                self.sessions@.len() == base.len() + admitted(all.take(k as int)).len(),
                forall|j: int| 0 <= j < base.len() ==> self.sessions@[j] == base[j],
                forall|m: int|
                    0 <= m < admitted(all.take(k as int)).len() ==> matches_entry(
                        #[trigger] self.sessions@[base.len() + m],
                        admitted(all.take(k as int))[m],
                    ),
            decreases all.len() - k,
        {
            proof {
                lemma_admitted_step(all, k as int);
            }
            let e = &entries[k];
            let mut added = false;
            if e.has_extended_control && e.pid != 0 && e.process_opened && e.bytes_read > 0 {
                let trimmed = truncate_at_nul(&e.image_bytes);
                match decode_utf8_bytes(&trimmed) {
                    Some(text) => {
                        match e.volume_control {
                            Some(h) => {
                                let name = derive_session_name(text.as_str());
                                let app = ApplicationSession::new(h, name, e.token);
                                self.sessions.push(Session::Application(app));
                                added = true;
                                proof {
                                    assert(admissible(all[k as int]));
                                    assert(matches_entry(
                                        self.sessions@[self.sessions@.len() - 1],
                                        all[k as int],
                                    ));
                                }
                            },
                            None => {},
                        }
                    },
                    None => {},
                }
            }
            proof {
                if !added {
                    assert(!admissible(all[k as int]));
                }
            }
            k = k + 1;
        }
        proof {
            assert(all.take(all.len() as int) =~= all);
        }
        StepOutcome::Completed
    }

    /// Returns the session names, in construction order.
    pub fn get_all_session_names(&self) -> (r: Vec<String>)
        ensures
            r@.len() == self.sessions@.len(),
            forall|i: int| 0 <= i < r@.len() ==> r@[i]@ == self.sessions@[i].spec_name(),
    {
        let mut r: Vec<String> = Vec::new();
        let mut i: usize = 0;
        while i < self.sessions.len()
            invariant
                0 <= i <= self.sessions@.len(),
                r@.len() == i,
                forall|j: int| 0 <= j < i ==> r@[j]@ == self.sessions@[j].spec_name(),
            decreases self.sessions@.len() - i,
        {
            r.push(self.sessions[i].get_name());
            i = i + 1;
        }
        r
    }

    /// Looks a session up by name: an exact, case-sensitive match, returning
    /// the first element in insertion order when several share the name.
    pub fn get_session_by_name(&self, name: String) -> (r: Option<&Session>)
        ensures
            match r {
                Some(s) => exists|i: int|
                    #[trigger] matched_at(self.sessions@, name@, i) && *s == self.sessions@[i],
                None => forall|i: int|
                    0 <= i < self.sessions@.len() ==> (#[trigger] self.sessions@[i].spec_name())
                        != name@,
            },
    {
        let mut i: usize = 0;
        while i < self.sessions.len()
            invariant
                0 <= i <= self.sessions@.len(),
                forall|j: int| 0 <= j < i ==> (#[trigger] self.sessions@[j].spec_name()) != name@,
            decreases self.sessions@.len() - i,
        {
            let s = &self.sessions[i];
            if s.name_matches(&name) {
                proof {
                    assert(matched_at(self.sessions@, name@, i as int));
                }
                return Some(s);
            }
            i = i + 1;
        }
        None
    }
}

proof fn lemma_last_sep_append_non_sep(s: Seq<char>, c: char)
    requires
        c != '\\',
    ensures
        last_sep_index(s.push(c)) == last_sep_index(s),
{
    let t = s.push(c);
    assert(t[t.len() - 1] == c);
    assert(t.drop_last() =~= s);
}

/// Every discovered application session is named after the process image
/// filename: for a path made of a directory part, a separator and a base
/// segment holding no separator, the derived name is the base segment with a
/// trailing executable suffix stripped.
pub proof fn lemma_name_is_stripped_filename(dir: Seq<char>, base: Seq<char>)
    requires
        forall|i: int| 0 <= i < base.len() ==> base[i] != '\\',
    ensures
        session_name_of(dir + seq!['\\'] + base) == strip_exe(base),
{
    let path = dir + seq!['\\'] + base;
    lemma_sep_position(dir, base);
    assert(file_part(path) =~= base);
}

proof fn lemma_sep_position(dir: Seq<char>, base: Seq<char>)
    requires
        forall|i: int| 0 <= i < base.len() ==> base[i] != '\\',
    ensures
        last_sep_index(dir + seq!['\\'] + base) == dir.len(),
    decreases base.len(),
{
    let path = dir + seq!['\\'] + base;
    if base.len() == 0 {
        assert(path[path.len() - 1] == '\\');
    } else {
        let shorter = base.drop_last();
        assert(forall|i: int| 0 <= i < shorter.len() ==> shorter[i] != '\\');
        lemma_sep_position(dir, shorter);
        let prefix = dir + seq!['\\'] + shorter;
        assert(path =~= prefix.push(base.last()));
        lemma_last_sep_append_non_sep(prefix, base.last());
    }
}

/// A process whose session resolution yields the sentinel process id zero is
/// never admitted, so it is never represented in the session list.
pub proof fn lemma_zero_pid_never_admitted(e: ProcessSessionInfo)
    ensures
        e.pid == 0 ==> !admissible(e),
{
}

/// The session list holds at most one endpoint session; when present it is
/// the first element and is named exactly "master".
pub proof fn lemma_master_endpoint_placement(c: &AudioController)
    requires
        c.wf(),
    ensures
        forall|i: int, j: int|
            (0 <= i < c.sessions@.len() && 0 <= j < c.sessions@.len()
                && (#[trigger] c.sessions@[i]) is EndPoint && (#[trigger] c.sessions@[j])
                is EndPoint) ==> i == j,
        forall|i: int|
            (0 <= i < c.sessions@.len() && (#[trigger] c.sessions@[i]) is EndPoint) ==> (i == 0
                && c.sessions@[i].spec_name() == "master"@),
{
}

} // verus!
