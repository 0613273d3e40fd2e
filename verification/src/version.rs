//! Negotiation of the host interface at load time.
//!
//! Before any host function is trusted, the binding has to find out which
//! generation of the entry-point convention the host speaks and whether the
//! host is at least as new as the version the binding was built for. Finding
//! out takes reads and calls that only the embedding can perform, so the rules
//! are written here as a state machine: the embedding performs the pending
//! [`Action`], reports what it saw as a [`HostEvent`], and the [`Negotiator`]
//! decides what happens next.

use vstd::prelude::*;
use vstd::string::*;
use vstd::utf8::*;

verus! {

/// Generation of the host's entry-point convention.
#[derive(Clone, Copy, Debug, PartialEq, Eq, Structural)]
pub enum Generation {
    /// The entry point is a pointer to a struct that starts with the version.
    Legacy,
    /// The entry point resolves host functions by name.
    Modern,
}

/// A `(major, minor, patch)` version number.
#[derive(Clone, Copy, Debug, PartialEq, Eq, Structural)]
pub struct VersionTriple {
    pub major: u32,
    pub minor: u32,
    pub patch: u32,
}

impl VersionTriple {
    /// Strict lexicographic order on `(major, minor, patch)`.
    pub open spec fn precedes(self, other: VersionTriple) -> bool {
        self.major < other.major || (self.major == other.major && (self.minor < other.minor || (
        self.minor == other.minor && self.patch < other.patch)))
    }

    pub fn new(major: u32, minor: u32, patch: u32) -> (triple: Self)
        ensures
            triple == (VersionTriple { major, minor, patch }),
    {
        VersionTriple { major, minor, patch }
    }

    /// Whether `self` is strictly older than `other`.
    pub fn is_older_than(&self, other: &VersionTriple) -> (older: bool)
        ensures
            older == self.precedes(*other),
    {
        if self.major != other.major {
            self.major < other.major
        } else if self.minor != other.minor {
            self.minor < other.minor
        } else {
            self.patch < other.patch
        }
    }
}

/// The interface a successful negotiation settles on.
#[derive(Clone, Copy, Debug, PartialEq, Eq, Structural)]
pub struct InterfaceVersion {
    pub triple: VersionTriple,
    pub generation: Generation,
}

/// A version number together with the text that names it.
#[derive(Clone, Debug)]
pub struct VersionInfo {
    pub triple: VersionTriple,
    pub string: String,
}

/// A version as a host reports it: the number, and the bytes of the text
/// that names it, taken from the host as they are.
#[derive(Clone, Debug)]
pub struct HostVersion {
    pub triple: VersionTriple,
    pub string: Vec<u8>,
}

/// First 32-bit word of a legacy host's interface struct.
pub const LEGACY_MAJOR: u32 = 4;

/// Second 32-bit word of a legacy host's interface struct.
pub const LEGACY_MINOR: u32 = 0;

/// Whether two leading words are those of the legacy interface struct.
pub open spec fn is_legacy_signature(major_word: u32, minor_word: u32) -> bool {
    major_word == LEGACY_MAJOR && minor_word == LEGACY_MINOR
}

/// Classifies an entry point by the first two 32-bit words found behind it.
pub fn classify_entry_words(major_word: u32, minor_word: u32) -> (generation: Generation)
    ensures
        generation == if is_legacy_signature(major_word, minor_word) {
            Generation::Legacy
        } else {
            Generation::Modern
        },
{
    if major_word == LEGACY_MAJOR && minor_word == LEGACY_MINOR {
        Generation::Legacy
    } else {
        Generation::Modern
    }
}

/// The prefix that hosts put in front of their version text.
pub open spec fn engine_prefix() -> Seq<char> {
    "Godot Engine "@
}

/// A version text without the engine prefix, if it has one.
pub open spec fn strip_engine_prefix(text: Seq<char>) -> Seq<char> {
    if engine_prefix().is_prefix_of(text) {
        text.skip(engine_prefix().len() as int)
    } else {
        text
    }
}

/// Reads the version out of the text a host reports for itself: the text
/// after the engine prefix, or the whole text where the prefix is missing.
pub fn read_version_string(version_string: &str) -> (version: String)
    ensures
        version@ == strip_engine_prefix(version_string@),
{
    let prefix = "Godot Engine ";
    let total = version_string.unicode_len();
    let width = prefix.unicode_len();
    if total < width {
        return String::from_str(version_string);
    }
    let mut i: usize = 0;
    while i < width
        invariant
            i <= width,
            width == prefix@.len(),
            total == version_string@.len(),
            width <= total,
            prefix@ == engine_prefix(),
            forall|j: int| 0 <= j < i ==> version_string@[j] == prefix@[j],
        decreases width - i,
    {
        if version_string.get_char(i) != prefix.get_char(i) {
            assert(!engine_prefix().is_prefix_of(version_string@)) by {
                if engine_prefix().is_prefix_of(version_string@) {
                    assert(version_string@.subrange(0, width as int)[i as int] == prefix@[i as int]);
                }
            }
            return String::from_str(version_string);
        }
        i += 1;
    }
    assert(prefix@ =~= version_string@.subrange(0, width as int));
    String::from_str(version_string.substring_char(width, total))
}

/// The text that a lossy reading makes of bytes: what the bytes encode where
/// they are well-formed UTF-8, with U+FFFD in place of each stretch that is
/// not.
pub uninterp spec fn lossy_text(bytes: Seq<u8>) -> Seq<char>;

/// `String::from_utf8_lossy`: the text of the bytes, read lossily. Bytes
/// that are well-formed UTF-8 give the text that they encode.
#[verifier::external_body]
fn decode_lossy(bytes: &Vec<u8>) -> (text: String)
    ensures
        text@ == lossy_text(bytes@),
        valid_utf8(bytes@) ==> text@ == decode_utf8(bytes@),
{
    String::from_utf8_lossy(bytes).into_owned()
}

/// Reads the version out of the bytes of the text a host reports for
/// itself: their lossy reading, without the engine prefix.
pub fn read_version_bytes(version_bytes: &Vec<u8>) -> (version: String)
    ensures
        version@ == strip_engine_prefix(lossy_text(version_bytes@)),
        valid_utf8(version_bytes@) ==> version@ == strip_engine_prefix(
            decode_utf8(version_bytes@),
        ),
{
    let text = decode_lossy(version_bytes);
    read_version_string(text.as_str())
}

/// Whether a function pointer can be read as data on this platform.
#[derive(Clone, Copy, Debug, PartialEq, Eq, Structural)]
pub enum AddressSpace {
    /// Code and data share one address space: the legacy probe is possible.
    Unified,
    /// Function references are not addresses: the legacy probe is skipped.
    Split,
}

/// Why a negotiation was refused.
#[derive(Clone, Copy, Debug, PartialEq, Eq, Structural)]
pub enum Rejection {
    /// The host passed no entry point at all.
    NullEntryPoint,
    /// The host is of the legacy generation.
    LegacyHost,
    /// The host is of the modern generation but older than the binding.
    OlderHost,
}

/// Where a negotiation stands.
#[derive(Clone, Copy, Debug, PartialEq, Eq, Structural)]
pub enum Phase {
    Start,
    AwaitMajorWord,
    AwaitMinorWord,
    AwaitLegacyVersion,
    AwaitRuntimeVersion,
    Accepted(InterfaceVersion),
    Rejected(Rejection),
}

/// What the embedding observed while carrying out an [`Action`].
#[derive(Clone, Debug)]
pub enum HostEvent {
    /// The entry point as the host passed it.
    EntryPoint { present: bool, address_space: AddressSpace },
    /// A 32-bit word read from behind the entry point.
    Word(u32),
    /// The bytes of the version text found in the legacy interface struct.
    LegacyVersion(Vec<u8>),
    /// The version the host reported through its version function.
    RuntimeVersion(HostVersion),
}

/// What the embedding has to do next.
#[derive(Clone, Copy, Debug, PartialEq, Eq, Structural)]
pub enum Action {
    /// Report the entry point and the platform.
    InspectEntryPoint,
    /// Read the first 32-bit word behind the entry point.
    ReadMajorWord,
    /// Read the second 32-bit word behind the entry point.
    ReadMinorWord,
    /// Read the version text of the legacy interface struct.
    ReadLegacyVersion,
    /// Resolve the host's version function and call it.
    QueryRuntimeVersion,
    /// The host is compatible: load the function table.
    LoadInterface,
    /// The host is not compatible: report the failure and stop.
    Abort,
}

/// The action a phase is waiting for.
pub open spec fn pending_action(phase: Phase) -> Action {
    match phase {
        Phase::Start => Action::InspectEntryPoint,
        Phase::AwaitMajorWord => Action::ReadMajorWord,
        Phase::AwaitMinorWord => Action::ReadMinorWord,
        Phase::AwaitLegacyVersion => Action::ReadLegacyVersion,
        Phase::AwaitRuntimeVersion => Action::QueryRuntimeVersion,
        Phase::Accepted(_) => Action::LoadInterface,
        Phase::Rejected(_) => Action::Abort,
    }
}

/// Whether a phase is waiting for this kind of event.
pub open spec fn expects(phase: Phase, event: HostEvent) -> bool {
    match (phase, event) {
        (Phase::Start, HostEvent::EntryPoint { .. }) => true,
        (Phase::AwaitMajorWord, HostEvent::Word(_)) => true,
        (Phase::AwaitMinorWord, HostEvent::Word(_)) => true,
        (Phase::AwaitLegacyVersion, HostEvent::LegacyVersion(_)) => true,
        (Phase::AwaitRuntimeVersion, HostEvent::RuntimeVersion(_)) => true,
        _ => false,
    }
}

/// The phase that follows `phase` once `event` was observed, for a binding
/// built for version `compiled`. An event the phase does not wait for changes
/// nothing.
pub open spec fn next_phase(phase: Phase, compiled: VersionTriple, event: HostEvent) -> Phase {
    match (phase, event) {
        (Phase::Start, HostEvent::EntryPoint { present, address_space }) => {
            if !present {
                Phase::Rejected(Rejection::NullEntryPoint)
            } else if address_space == AddressSpace::Unified {
                Phase::AwaitMajorWord
            } else {
                Phase::AwaitRuntimeVersion
            }
        },
        (Phase::AwaitMajorWord, HostEvent::Word(word)) => {
            if word == LEGACY_MAJOR {
                Phase::AwaitMinorWord
            } else {
                Phase::AwaitRuntimeVersion
            }
        },
        (Phase::AwaitMinorWord, HostEvent::Word(word)) => {
            if word == LEGACY_MINOR {
                Phase::AwaitLegacyVersion
            } else {
                Phase::AwaitRuntimeVersion
            }
        },
        (Phase::AwaitLegacyVersion, HostEvent::LegacyVersion(_)) => Phase::Rejected(
            Rejection::LegacyHost,
        ),
        (Phase::AwaitRuntimeVersion, HostEvent::RuntimeVersion(report)) => {
            if report.triple.precedes(compiled) {
                Phase::Rejected(Rejection::OlderHost)
            } else {
                Phase::Accepted(
                    InterfaceVersion { triple: report.triple, generation: Generation::Modern },
                )
            }
        },
        _ => phase,
    }
}

/// The host's version text as known after `event`: the lossy reading of
/// the text of a version report that the phase was waiting for, without the
/// engine prefix; otherwise what was known before.
pub open spec fn next_detected(phase: Phase, detected: Seq<char>, event: HostEvent) -> Seq<char> {
    match (phase, event) {
        (Phase::AwaitLegacyVersion, HostEvent::LegacyVersion(text)) => strip_engine_prefix(
            lossy_text(text@),
        ),
        (Phase::AwaitRuntimeVersion, HostEvent::RuntimeVersion(report)) => strip_engine_prefix(
            lossy_text(report.string@),
        ),
        _ => detected,
    }
}

/// The phase reached from `phase` after a whole sequence of events.
pub open spec fn run(phase: Phase, compiled: VersionTriple, events: Seq<HostEvent>) -> Phase
    decreases events.len(),
{
    if events.len() == 0 {
        phase
    } else {
        run(next_phase(phase, compiled, events[0]), compiled, events.skip(1))
    }
}

/// The diagnostic for a host of the legacy generation.
pub open spec fn legacy_host_message(compiled: Seq<char>, detected: Seq<char>) -> Seq<char> {
    "gdext was compiled against a newer Godot version: "@ + compiled + "\n"@
        + "but loaded by legacy Godot binary, with version:  "@ + detected + "\n\n"@
        + "Update your Godot engine version, or read https://godot-rust.github.io/book/toolchain/compatibility.html.\n\n"@
}

/// The diagnostic for a modern host that is older than the binding.
pub open spec fn older_host_message(compiled: Seq<char>, detected: Seq<char>) -> Seq<char> {
    "gdext was compiled against newer Godot version: "@ + compiled + "\n"@
        + "but loaded by older Godot binary, with version: "@ + detected + "\n\n"@
        + "Update your Godot engine version, or compile gdext against an older version.\n"@
        + "For more information, read https://godot-rust.github.io/book/toolchain/compatibility.html.\n\n"@
}

/// The diagnostic for a missing entry point.
pub open spec fn null_entry_point_message() -> Seq<char> {
    "get_proc_address unexpectedly null"@
}

/// The diagnostic for a rejection, naming both versions where there are two.
pub open spec fn rejection_message(
    rejection: Rejection,
    compiled: Seq<char>,
    detected: Seq<char>,
) -> Seq<char> {
    match rejection {
        Rejection::NullEntryPoint => null_entry_point_message(),
        Rejection::LegacyHost => legacy_host_message(compiled, detected),
        Rejection::OlderHost => older_host_message(compiled, detected),
    }
}

/// One negotiation with a host, for a binding built for a fixed version.
pub struct Negotiator {
    compiled: VersionInfo,
    phase: Phase,
    detected: String,
}

impl Negotiator {
    /// Where the negotiation stands.
    pub closed spec fn phase(&self) -> Phase {
        self.phase
    }

    /// The version the binding was built for.
    pub closed spec fn compiled_triple(&self) -> VersionTriple {
        self.compiled.triple
    }

    /// The text that names the version the binding was built for.
    pub closed spec fn compiled_text(&self) -> Seq<char> {
        self.compiled.string@
    }

    /// The host's version text as far as it is known, without engine prefix.
    pub closed spec fn detected_text(&self) -> Seq<char> {
        self.detected@
    }

    /// Starts a negotiation for a binding built for `compiled`.
    pub fn new(compiled: VersionInfo) -> (negotiator: Self)
        ensures
            negotiator.phase() == Phase::Start,
            negotiator.compiled_triple() == compiled.triple,
            negotiator.compiled_text() == compiled.string@,
            negotiator.detected_text() == Seq::<char>::empty(),
    {
        Negotiator { compiled, phase: Phase::Start, detected: String::new() }
    }

    pub fn current_phase(&self) -> (phase: Phase)
        ensures
            phase == self.phase(),
    {
        self.phase
    }

    /// The action the negotiation is waiting for.
    pub fn pending(&self) -> (action: Action)
        ensures
            action == pending_action(self.phase()),
    {
        match self.phase {
            Phase::Start => Action::InspectEntryPoint,
            Phase::AwaitMajorWord => Action::ReadMajorWord,
            Phase::AwaitMinorWord => Action::ReadMinorWord,
            Phase::AwaitLegacyVersion => Action::ReadLegacyVersion,
            Phase::AwaitRuntimeVersion => Action::QueryRuntimeVersion,
            Phase::Accepted(_) => Action::LoadInterface,
            Phase::Rejected(_) => Action::Abort,
        }
    }

    /// Takes in what the embedding observed and says what to do next.
    pub fn advance(&mut self, event: HostEvent) -> (action: Action)
        ensures
            final(self).phase() == next_phase(
                old(self).phase(),
                old(self).compiled_triple(),
                event,
            ),
            final(self).detected_text() == next_detected(
                old(self).phase(),
                old(self).detected_text(),
                event,
            ),
            final(self).compiled_triple() == old(self).compiled_triple(),
            final(self).compiled_text() == old(self).compiled_text(),
            action == pending_action(final(self).phase()),
    {
        match self.phase {
            Phase::Start => {
                if let HostEvent::EntryPoint { present, address_space } = event {
                    if !present {
                        self.phase = Phase::Rejected(Rejection::NullEntryPoint);
                    } else if address_space == AddressSpace::Unified {
                        self.phase = Phase::AwaitMajorWord;
                    } else {
                        self.phase = Phase::AwaitRuntimeVersion;
                    }
                }
            },
            Phase::AwaitMajorWord => {
                if let HostEvent::Word(word) = event {
                    if word == LEGACY_MAJOR {
                        self.phase = Phase::AwaitMinorWord;
                    } else {
                        self.phase = Phase::AwaitRuntimeVersion;
                    }
                }
            },
            Phase::AwaitMinorWord => {
                if let HostEvent::Word(word) = event {
                    if word == LEGACY_MINOR {
                        self.phase = Phase::AwaitLegacyVersion;
                    } else {
                        self.phase = Phase::AwaitRuntimeVersion;
                    }
                }
            },
            Phase::AwaitLegacyVersion => {
                if let HostEvent::LegacyVersion(text) = event {
                    self.detected = read_version_bytes(&text);
                    self.phase = Phase::Rejected(Rejection::LegacyHost);
                }
            },
            Phase::AwaitRuntimeVersion => {
                if let HostEvent::RuntimeVersion(report) = event {
                    self.detected = read_version_bytes(&report.string);
                    if report.triple.is_older_than(&self.compiled.triple) {
                        self.phase = Phase::Rejected(Rejection::OlderHost);
                    } else {
                        self.phase = Phase::Accepted(
                            InterfaceVersion {
                                triple: report.triple,
                                generation: Generation::Modern,
                            },
                        );
                    }
                }
            },
            Phase::Accepted(_) => {},
            Phase::Rejected(_) => {},
        }
        self.pending()
    }

    /// How the negotiation ended, if it has ended.
    pub fn outcome(&self) -> (outcome: Option<Result<InterfaceVersion, Rejection>>)
        ensures
            outcome == match self.phase() {
                Phase::Accepted(version) => Some(Ok::<InterfaceVersion, Rejection>(version)),
                Phase::Rejected(rejection) => Some(Err::<InterfaceVersion, Rejection>(rejection)),
                _ => None,
            },
    {
        match self.phase {
            Phase::Accepted(version) => Some(Ok(version)),
            Phase::Rejected(rejection) => Some(Err(rejection)),
            _ => None,
        }
    }

    /// The diagnostic to terminate with, if the negotiation was refused.
    pub fn failure_message(&self) -> (message: Option<String>)
        ensures
            match self.phase() {
                Phase::Rejected(rejection) => message matches Some(text) && text@
                    == rejection_message(rejection, self.compiled_text(), self.detected_text()),
                _ => message is None,
            },
    {
        match self.phase {
            Phase::Rejected(Rejection::NullEntryPoint) => Some(
                String::from_str("get_proc_address unexpectedly null"),
            ),
            Phase::Rejected(Rejection::LegacyHost) => {
                let mut text = String::from_str(
                    "gdext was compiled against a newer Godot version: ",
                );
                text.append(self.compiled.string.as_str());
                text.append("\n");
                text.append("but loaded by legacy Godot binary, with version:  ");
                text.append(self.detected.as_str());
                text.append("\n\n");
                text.append(
                    "Update your Godot engine version, or read https://godot-rust.github.io/book/toolchain/compatibility.html.\n\n",
                );
                Some(text)
            },
            Phase::Rejected(Rejection::OlderHost) => {
                let mut text = String::from_str("gdext was compiled against newer Godot version: ");
                text.append(self.compiled.string.as_str());
                text.append("\n");
                text.append("but loaded by older Godot binary, with version: ");
                text.append(self.detected.as_str());
                text.append("\n\n");
                text.append(
                    "Update your Godot engine version, or compile gdext against an older version.\n",
                );
                text.append(
                    "For more information, read https://godot-rust.github.io/book/toolchain/compatibility.html.\n\n",
                );
                Some(text)
            },
            _ => None,
        }
    }
}

/// The version order is a strict total order: nothing precedes itself, the
/// order is transitive, and of two different versions one precedes the other.
pub proof fn law_version_order(a: VersionTriple, b: VersionTriple, c: VersionTriple)
    ensures
        !a.precedes(a),
        a.precedes(b) && b.precedes(c) ==> a.precedes(c),
        a.precedes(b) || b.precedes(a) || a == b,
        !(a.precedes(b) && b.precedes(a)),
{
}

/// A host that answers the version query is accepted exactly when it is not
/// older than the binding; a host of the very same version is accepted.
pub proof fn law_runtime_check(compiled: VersionTriple, report: HostVersion)
    ensures
        next_phase(Phase::AwaitRuntimeVersion, compiled, HostEvent::RuntimeVersion(report))
            is Accepted <==> !report.triple.precedes(compiled),
        next_phase(Phase::AwaitRuntimeVersion, compiled, HostEvent::RuntimeVersion(report))
            is Rejected <==> report.triple.precedes(compiled),
        report.triple == compiled ==> next_phase(
            Phase::AwaitRuntimeVersion,
            compiled,
            HostEvent::RuntimeVersion(report),
        ) == Phase::Accepted(InterfaceVersion { triple: compiled, generation: Generation::Modern }),
{
}

/// An event that a phase does not wait for is ignored: the phase, the
/// pending action and the host's version text stay as they were. A
/// negotiation that has ended waits for nothing.
pub proof fn law_unexpected_event_is_ignored(
    phase: Phase,
    compiled: VersionTriple,
    detected: Seq<char>,
    event: HostEvent,
)
    requires
        !expects(phase, event),
    ensures
        next_phase(phase, compiled, event) == phase,
        pending_action(next_phase(phase, compiled, event)) == pending_action(phase),
        next_detected(phase, detected, event) == detected,
        phase is Accepted || phase is Rejected ==> forall|any: HostEvent| !expects(phase, any),
{
}

/// An event that a phase waits for moves the negotiation on: the phase
/// after it is another one.
pub proof fn law_expected_event_moves_on(phase: Phase, compiled: VersionTriple, event: HostEvent)
    requires
        expects(phase, event),
    ensures
        next_phase(phase, compiled, event) != phase,
{
}

/// A negotiation that has ended stays as it ended, whatever is reported.
pub proof fn law_outcome_is_final(phase: Phase, compiled: VersionTriple, events: Seq<HostEvent>)
    requires
        phase is Accepted || phase is Rejected,
    ensures
        run(phase, compiled, events) == phase,
    decreases events.len(),
{
    if events.len() > 0 {
        law_outcome_is_final(phase, compiled, events.skip(1));
    }
}

/// Once both leading words matched the legacy signature, no sequence of
/// events makes the negotiation accept the host.
pub proof fn law_legacy_probe_never_accepts(compiled: VersionTriple, events: Seq<HostEvent>)
    ensures
        run(Phase::AwaitLegacyVersion, compiled, events) == Phase::AwaitLegacyVersion || run(
            Phase::AwaitLegacyVersion,
            compiled,
            events,
        ) == Phase::Rejected(Rejection::LegacyHost),
    decreases events.len(),
{
    if events.len() > 0 {
        let next = next_phase(Phase::AwaitLegacyVersion, compiled, events[0]);
        if next == Phase::AwaitLegacyVersion {
            law_legacy_probe_never_accepts(compiled, events.skip(1));
        } else {
            law_outcome_is_final(next, compiled, events.skip(1));
        }
    }
}

/// An entry point whose first two words read as the legacy signature is
/// never accepted: whatever is reported after the two words, the negotiation
/// either still waits for the legacy version text or has rejected the host as
/// legacy; and it rejects as soon as that text arrives.
pub proof fn law_legacy_signature_rejected(
    compiled: VersionTriple,
    major_word: u32,
    minor_word: u32,
    text: Vec<u8>,
    rest: Seq<HostEvent>,
)
    requires
        is_legacy_signature(major_word, minor_word),
    ensures
        !(run(
            Phase::AwaitMajorWord,
            compiled,
            seq![HostEvent::Word(major_word), HostEvent::Word(minor_word)] + rest,
        ) is Accepted),
        run(
            Phase::AwaitMajorWord,
            compiled,
            seq![
                HostEvent::Word(major_word),
                HostEvent::Word(minor_word),
                HostEvent::LegacyVersion(text),
            ] + rest,
        ) == Phase::Rejected(Rejection::LegacyHost),
{
    let words = seq![HostEvent::Word(major_word), HostEvent::Word(minor_word)];
    let first = words + rest;
    assert(first.skip(1).skip(1) =~= rest);
    assert(first[0] == HostEvent::Word(major_word));
    assert(first.skip(1)[0] == HostEvent::Word(minor_word));
    assert(run(Phase::AwaitMajorWord, compiled, first) == run(
        Phase::AwaitLegacyVersion,
        compiled,
        rest,
    )) by {
        reveal_with_fuel(run, 3);
    }
    law_legacy_probe_never_accepts(compiled, rest);

    let second = seq![
        HostEvent::Word(major_word),
        HostEvent::Word(minor_word),
        HostEvent::LegacyVersion(text),
    ] + rest;
    assert(second.skip(1).skip(1).skip(1) =~= rest);
    assert(second[0] == HostEvent::Word(major_word));
    assert(second.skip(1)[0] == HostEvent::Word(minor_word));
    assert(second.skip(1).skip(1)[0] == HostEvent::LegacyVersion(text));
    assert(run(Phase::AwaitMajorWord, compiled, second) == run(
        Phase::Rejected(Rejection::LegacyHost),
        compiled,
        rest,
    )) by {
        reveal_with_fuel(run, 4);
    }
    law_outcome_is_final(Phase::Rejected(Rejection::LegacyHost), compiled, rest);
}

} // verus!
