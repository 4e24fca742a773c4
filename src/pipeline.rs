use vstd::prelude::*;

use crate::classify::{classify, kind_of, ReleaseKind};
use crate::compose::{compose, description_of, thumbnail_of, ComposedMessage};
use crate::config::{ConfigError, PingOverride, ReleaseAnnouncementConfig};
use crate::decimal::{decimal_chars, parsed_id};
use crate::outcome::{outcome_record, render_outcome};
use crate::twilight::{parse_role_id, role_mention};

verus! {

/// Seconds between the announcement and the mention that follows it.
pub const SECONDARY_DELAY_SECS: u64 = 5;

/// The role is mentioned when forced, or, when unset, for stable releases.
pub open spec fn ping_wanted(o: PingOverride, k: ReleaseKind) -> bool {
    o == PingOverride::ForceTrue || (o == PingOverride::Unset && k == ReleaseKind::Stable)
}

/// The mention of the role whose id is `role`, if it is a valid id.
pub open spec fn mention_of(role: Seq<char>) -> Option<Seq<char>> {
    match parsed_id(role) {
        Some(id) => Some("<@&"@ + decimal_chars(id as nat) + ">"@),
        None => None,
    }
}

/// The content of the follow-up message of a run, if there is one.
pub open spec fn planned_mention(c: ReleaseAnnouncementConfig) -> Option<Seq<char>> {
    if ping_wanted(c.ping_override, kind_of(c.project_version@)) {
        mention_of(c.notification_role_id@)
    } else {
        None
    }
}

pub open spec fn opt_view(o: Option<String>) -> Option<Seq<char>> {
    match o {
        Some(s) => Some(s@),
        None => None,
    }
}

/// Whether the role is to be mentioned after the announcement.
pub fn should_ping(o: PingOverride, k: ReleaseKind) -> (r: bool)
    ensures
        r == ping_wanted(o, k),
{
    match o {
        PingOverride::ForceTrue => true,
        PingOverride::ForceFalse => false,
        PingOverride::Unset => k == ReleaseKind::Stable,
    }
}

/// What a run delivers: the announcement, and the mention that follows it.
pub struct DeliveryPlan {
    pub message: ComposedMessage,
    pub mention: Option<String>,
}

/// Classifies the version, composes the announcement and decides on the
/// mention. Fails, before anything is sent, only where the role is to be
/// mentioned and its id is not a positive integer.
pub fn plan(c: &ReleaseAnnouncementConfig) -> (r: Result<DeliveryPlan, ConfigError>)
    ensures
        r is Err <==> (ping_wanted(c.ping_override, kind_of(c.project_version@)) && mention_of(
            c.notification_role_id@,
        ) is None),
        match r {
            Ok(p) => {
                &&& p.message.description@ == description_of(*c)
                &&& opt_view(p.message.thumbnail_url) == thumbnail_of(*c)
                &&& opt_view(p.mention) == planned_mention(*c)
            },
            Err(e) => e == ConfigError::RoleIdInvalid,
        },
{
    let kind = classify(c.project_version.as_str());
    let mention = if should_ping(c.ping_override, kind) {
        match parse_role_id(c.notification_role_id.as_str()) {
            Some(id) => Some(role_mention(id)),
            None => return Err(ConfigError::RoleIdInvalid),
        }
    } else {
        None
    };
    Ok(DeliveryPlan { message: compose(c), mention })
}

/// Where a run stands.
#[derive(Debug, Clone, Copy, PartialEq, Eq, Structural)]
pub enum Stage {
    SendingPrimary,
    WritingOutcome,
    Waiting,
    SendingSecondary,
    Done,
    Failed,
}

/// Why a run stopped.
#[derive(Debug, Clone, Copy, PartialEq, Eq, Structural)]
pub enum PipelineError {
    Delivery,
    OutcomeWrite,
}

/// What the outside world reports back to a run.
pub enum Event {
    /// The announcement was sent: the response status and the raw request body.
    PrimarySent { status: u16, body: Vec<u8> },
    PrimaryFailed,
    OutcomeWritten,
    OutcomeWriteFailed,
    DelayElapsed,
    SecondarySent,
    SecondaryFailed,
}

/// What a run asks the outside world to do next.
pub enum Action {
    /// Write these bytes to the outcome sink.
    WriteOutcome(Vec<u8>),
    /// Wait this many seconds.
    Wait(u64),
    /// Send a message with this content only.
    SendSecondary(String),
    Finish,
    Abort(PipelineError),
    /// The event does not belong to the current stage.
    Ignore,
}

/// The sequencing of a run after its plan: the announcement is sent, its
/// outcome written, and only then, after a delay, the mention sent.
pub struct Pipeline {
    pub stage: Stage,
    pub mention: Option<String>,
}

impl Pipeline {
    /// The mention is at hand whenever the run waits for it or sends it.
    pub open spec fn wf(&self) -> bool {
        (self.stage == Stage::Waiting || self.stage == Stage::SendingSecondary) ==> self.mention is Some
    }

    /// A run whose announcement is being sent.
    pub fn new(mention: Option<String>) -> (r: Pipeline)
        ensures
            r.wf(),
            r.stage == Stage::SendingPrimary,
            opt_view(r.mention) == opt_view(mention),
    {
        Pipeline { stage: Stage::SendingPrimary, mention }
    }

    /// Takes an event and returns the next action.
    pub fn step(&mut self, event: Event) -> (r: Action)
        requires
            old(self).wf(),
        ensures
            final(self).wf(),
            opt_view(final(self).mention) == opt_view(old(self).mention),
            r is SendSecondary ==> old(self).stage == Stage::Waiting,
            match (old(self).stage, event) {
                (Stage::SendingPrimary, Event::PrimarySent { status, body }) => {
                    &&& final(self).stage == Stage::WritingOutcome
                    &&& r matches Action::WriteOutcome(rec) && rec@ == outcome_record(status, body@)
                },
                (Stage::SendingPrimary, Event::PrimaryFailed) => {
                    &&& final(self).stage == Stage::Failed
                    &&& r matches Action::Abort(e) && e == PipelineError::Delivery
                },
                (Stage::WritingOutcome, Event::OutcomeWritten) => match old(self).mention {
                    Some(_) => {
                        &&& final(self).stage == Stage::Waiting
                        &&& r matches Action::Wait(s) && s == SECONDARY_DELAY_SECS
                    },
                    None => final(self).stage == Stage::Done && r is Finish,
                },
                (Stage::WritingOutcome, Event::OutcomeWriteFailed) => {
                    &&& final(self).stage == Stage::Failed
                    &&& r matches Action::Abort(e) && e == PipelineError::OutcomeWrite
                },
                (Stage::Waiting, Event::DelayElapsed) => {
                    &&& final(self).stage == Stage::SendingSecondary
                    &&& r matches Action::SendSecondary(m) && opt_view(old(self).mention) == Some(
                        m@,
                    )
                },
                (Stage::SendingSecondary, Event::SecondarySent) => final(self).stage == Stage::Done
                    && r is Finish,
                (Stage::SendingSecondary, Event::SecondaryFailed) => {
                    &&& final(self).stage == Stage::Failed
                    &&& r matches Action::Abort(e) && e == PipelineError::Delivery
                },
                _ => final(self).stage == old(self).stage && r is Ignore,
            },
    {
        match (self.stage, event) {
            (Stage::SendingPrimary, Event::PrimarySent { status, body }) => {
                self.stage = Stage::WritingOutcome;
                Action::WriteOutcome(render_outcome(status, body.as_slice()))
            },
            (Stage::SendingPrimary, Event::PrimaryFailed) => {
                self.stage = Stage::Failed;
                Action::Abort(PipelineError::Delivery)
            },
            (Stage::WritingOutcome, Event::OutcomeWritten) => {
                if self.mention.is_some() {
                    self.stage = Stage::Waiting;
                    Action::Wait(SECONDARY_DELAY_SECS)
                } else {
                    self.stage = Stage::Done;
                    Action::Finish
                }
            },
            (Stage::WritingOutcome, Event::OutcomeWriteFailed) => {
                self.stage = Stage::Failed;
                Action::Abort(PipelineError::OutcomeWrite)
            },
            (Stage::Waiting, Event::DelayElapsed) => {
                self.stage = Stage::SendingSecondary;
                match &self.mention {
                    Some(m) => Action::SendSecondary(m.clone()),
                    None => Action::Ignore,
                }
            },
            (Stage::SendingSecondary, Event::SecondarySent) => {
                self.stage = Stage::Done;
                Action::Finish
            },
            (Stage::SendingSecondary, Event::SecondaryFailed) => {
                self.stage = Stage::Failed;
                Action::Abort(PipelineError::Delivery)
            },
            _ => Action::Ignore,
        }
    }
}

} // verus!
