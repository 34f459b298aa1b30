//! The course of one match, as a state machine. The caller performs each
//! command (asking a model, storing, announcing) and hands back what came of
//! it; the machine decides what comes next.
//!
//! A match goes: the game master invents a game; for each round the players
//! act, at once or one after the other, and the round is scored from the
//! payoff matrix when it can be, otherwise by the game master; then each
//! player reflects and may rewrite its strategy memo; then the match is
//! finished. Any failure but a failed reflection ends the match as failed.

use vstd::prelude::*;

use crate::game::{is_simultaneous, matrix_score, score_from_matrix, GameSpec};
use crate::prompts::{Action, Adjudication};
use crate::store::MatchStatus;

verus! {

#[derive(PartialEq, Eq, Structural, Clone, Copy, Debug)]
pub enum Side {
    A,
    B,
}

/// Who scored a round.
#[derive(PartialEq, Eq, Structural, Clone, Copy, Debug)]
pub enum Adjudicator {
    Unspecified,
    Engine,
    Gm,
}

/// Where a match stands, awaiting the outcome of the last command.
#[derive(PartialEq, Eq, Structural, Clone, Copy, Debug)]
pub enum Phase {
    Idle,
    GeneratingGame,
    Preparing,
    OpeningRound,
    CollectingBoth,
    CollectingA,
    AnnouncingA,
    CollectingB,
    AnnouncingB,
    Adjudicating,
    Recording,
    OpeningReflection,
    Reflecting { side: Side },
    SavingMemo { side: Side },
    Finishing,
    Done,
    Failed,
}

/// What came of the last command.
pub enum MatchEvent {
    /// The match is to begin.
    Started,
    /// The game master produced a game.
    GameReady { spec: GameSpec },
    /// The command was carried out and has nothing to report.
    Completed,
    /// A player acted.
    ActionTaken { action: Action },
    /// Both players acted.
    ActionsTaken { action_a: Action, action_b: Action },
    /// The game master scored the round.
    Verdict { verdict: Adjudication },
    /// A player reflected: its new memo, or why it could not.
    Reflected { memo: Result<String, String> },
    /// The command failed.
    Failed { message: String },
}

/// What the caller is to do next.
pub enum MatchCommand {
    /// Mark the match as generating its game and ask the game master for one.
    GenerateGame,
    /// Store and announce the game, mark the match in progress, and make the
    /// players ready (their models and memos).
    StartPlay,
    /// Announce the start of a round.
    StartRound { round: u32 },
    /// Ask both players for their action at once; neither sees the other's.
    CollectBoth { round: u32 },
    /// Ask one player for its action; `opponent_action` is the other
    /// player's action in this round when that one has already acted.
    Collect { side: Side, round: u32, opponent_action: Option<String> },
    /// Announce an action.
    Announce { action: Action },
    /// Ask the game master to score the round.
    Adjudicate { round: u32, action_a_json: String, action_b_json: String },
    /// Add the round's scores to the totals, store the round and announce it.
    Record {
        round: u32,
        action_a: Action,
        action_b: Action,
        score_a: String,
        score_b: String,
        narration: String,
        adjudicator: Adjudicator,
    },
    /// Mark the match as reflecting.
    BeginReflection,
    /// Ask a player to reflect on the match.
    Reflect { side: Side },
    /// Store a player's new memo and announce it.
    SaveMemo { side: Side, memo: String },
    /// Decide the winner from the totals, store the result and announce it.
    Finish,
    /// Mark the match as failed and announce why.
    Fail { message: String },
    /// Nothing is left to do.
    Stop,
}

/// An action as its fields' values.
pub open spec fn action_view(a: Action) -> (Seq<char>, u32, Seq<char>, Seq<char>) {
    (a.agent_id@, a.round, a.action_json@, a.private_reasoning@)
}

pub fn copy_action(a: &Action) -> (r: Action)
    ensures
        action_view(r) == action_view(*a),
{
    Action {
        agent_id: a.agent_id.clone(),
        round: a.round,
        action_json: a.action_json.clone(),
        private_reasoning: a.private_reasoning.clone(),
    }
}

/// The phases in which a round is under way.
pub open spec fn in_round(p: Phase) -> bool {
    ||| p == Phase::OpeningRound
    ||| p == Phase::CollectingBoth
    ||| p == Phase::CollectingA
    ||| p == Phase::AnnouncingA
    ||| p == Phase::CollectingB
    ||| p == Phase::AnnouncingB
    ||| p == Phase::Adjudicating
    ||| p == Phase::Recording
}

/// How far a round phase is from the end of its round.
pub open spec fn round_steps_left(p: Phase) -> nat {
    match p {
        Phase::OpeningRound => 6,
        Phase::CollectingBoth => 5,
        Phase::CollectingA => 5,
        Phase::AnnouncingA => 4,
        Phase::CollectingB => 3,
        Phase::AnnouncingB => 2,
        Phase::Adjudicating => 1,
        _ => 0,
    }
}

/// How far a phase after the rounds is from the end of the match.
pub open spec fn closing_steps_left(p: Phase) -> nat {
    match p {
        Phase::OpeningReflection => 6,
        Phase::Reflecting { side: Side::A } => 5,
        Phase::SavingMemo { side: Side::A } => 4,
        Phase::Reflecting { side: Side::B } => 3,
        Phase::SavingMemo { side: Side::B } => 2,
        Phase::Finishing => 1,
        _ => 0,
    }
}

/// `c` announces action `a`.
pub open spec fn announces(c: MatchCommand, a: Action) -> bool {
    &&& c matches MatchCommand::Announce { action }
    &&& action_view(action) == action_view(a)
}

/// `c` records round `round` with these actions and this verdict.
pub open spec fn records(
    c: MatchCommand,
    round: u32,
    a: Action,
    b: Action,
    score_a: Seq<char>,
    score_b: Seq<char>,
    narration: Seq<char>,
    adjudicator: Adjudicator,
) -> bool {
    &&& c matches MatchCommand::Record {
        round: r,
        action_a,
        action_b,
        score_a: sa,
        score_b: sb,
        narration: n,
        adjudicator: j,
    }
    &&& r == round
    &&& action_view(action_a) == action_view(a)
    &&& action_view(action_b) == action_view(b)
    &&& sa@ == score_a
    &&& sb@ == score_b
    &&& n@ == narration
    &&& j == adjudicator
}

/// What follows a player's reflection: the other player's, then the finish.
pub open spec fn after_reflection(side: Side, next: MatchMachine, c: MatchCommand) -> bool {
    if side == Side::A {
        next.phase == (Phase::Reflecting { side: Side::B }) && c == (MatchCommand::Reflect {
            side: Side::B,
        })
    } else {
        next.phase == Phase::Finishing && c is Finish
    }
}

/// The status a match has while it is in a phase: the one that the command
/// leading into the phase wrote.
pub open spec fn phase_status(p: Phase) -> MatchStatus {
    match p {
        Phase::Idle => MatchStatus::Pending,
        Phase::GeneratingGame => MatchStatus::GeneratingGame,
        Phase::OpeningReflection | Phase::Reflecting { .. } | Phase::SavingMemo { .. } => MatchStatus::Reflecting,
        Phase::Finishing | Phase::Done => MatchStatus::Completed,
        Phase::Failed => MatchStatus::Failed,
        _ => MatchStatus::InProgress,
    }
}

/// The order in which a match passes through its statuses.
pub open spec fn status_rank(s: MatchStatus) -> int {
    match s {
        MatchStatus::Unspecified => 0,
        MatchStatus::Pending => 1,
        MatchStatus::GeneratingGame => 2,
        MatchStatus::InProgress => 3,
        MatchStatus::Reflecting => 4,
        MatchStatus::Completed => 5,
        MatchStatus::Failed => 6,
    }
}

/// The status that carrying out a command writes, if any.
pub open spec fn command_status(c: MatchCommand) -> Option<MatchStatus> {
    match c {
        MatchCommand::GenerateGame => Some(MatchStatus::GeneratingGame),
        MatchCommand::StartPlay => Some(MatchStatus::InProgress),
        MatchCommand::BeginReflection => Some(MatchStatus::Reflecting),
        MatchCommand::Finish => Some(MatchStatus::Completed),
        MatchCommand::Fail { .. } => Some(MatchStatus::Failed),
        _ => None,
    }
}

impl MatchCommand {
    /// The status that carrying out this command writes, if any.
    pub fn status(&self) -> (r: Option<MatchStatus>)
        ensures
            r == command_status(*self),
    {
        match self {
            MatchCommand::GenerateGame => Some(MatchStatus::GeneratingGame),
            MatchCommand::StartPlay => Some(MatchStatus::InProgress),
            MatchCommand::BeginReflection => Some(MatchStatus::Reflecting),
            MatchCommand::Finish => Some(MatchStatus::Completed),
            MatchCommand::Fail { .. } => Some(MatchStatus::Failed),
            _ => None,
        }
    }
}

pub struct MatchMachine {
    pub phase: Phase,
    pub spec: Option<GameSpec>,
    /// The current round, from 1, while a round is under way.
    pub round: u32,
    pub action_a: Option<Action>,
    pub action_b: Option<Action>,
}

impl MatchMachine {
    /// A match that has not begun.
    pub fn new() -> (r: Self)
        ensures
            r.phase == Phase::Idle,
            r.wf(),
    {
        MatchMachine { phase: Phase::Idle, spec: None, round: 0, action_a: None, action_b: None }
    }

    /// The number of rounds of the game (0 before there is one).
    pub open spec fn num_rounds(&self) -> u32 {
        match self.spec {
            Some(s) => s.num_rounds,
            None => 0,
        }
    }

    /// Whether the players of the game act at once.
    pub open spec fn simultaneous(&self) -> bool {
        match self.spec {
            Some(s) => is_simultaneous(s.turn_structure),
            None => true,
        }
    }

    /// The machine's invariant: once past the game's generation it holds the
    /// game; during a round the round is one of the game's; the actions that
    /// the phase needs have been taken.
    pub open spec fn wf(&self) -> bool {
        &&& (self.phase != Phase::Idle && self.phase != Phase::GeneratingGame && self.phase
            != Phase::Done && self.phase != Phase::Failed) ==> self.spec is Some
        &&& in_round(self.phase) ==> 1 <= self.round <= self.num_rounds()
        &&& (self.phase == Phase::AnnouncingA || self.phase == Phase::CollectingB) ==> self.action_a is Some
        &&& (self.phase == Phase::AnnouncingA && self.simultaneous()) ==> self.action_b is Some
        &&& (self.phase == Phase::AnnouncingB || self.phase == Phase::Adjudicating || self.phase
            == Phase::Recording) ==> self.action_a is Some && self.action_b is Some
        &&& self.phase == Phase::CollectingBoth ==> self.simultaneous()
        &&& (self.phase == Phase::CollectingA || self.phase == Phase::CollectingB) ==> !self.simultaneous()
    }

    /// Steps left until the match ends; every step lowers it.
    pub open spec fn steps_left(&self) -> nat {
        let n: nat = self.num_rounds() as nat;
        let most: nat = 8 * (u32::MAX as nat) + 14;
        if self.phase == Phase::Idle {
            most + 2
        } else if self.phase == Phase::GeneratingGame {
            most + 1
        } else if self.phase == Phase::Preparing {
            8 * n + 14
        } else if in_round(self.phase) {
            7 + 8 * ((n - self.round) as nat) + round_steps_left(self.phase)
        } else {
            closing_steps_left(self.phase)
        }
    }

    /// Whether the match is over.
    pub open spec fn is_over(&self) -> bool {
        self.phase == Phase::Done || self.phase == Phase::Failed
    }

    /// The events that may follow the last command.
    pub open spec fn accepts(&self, e: MatchEvent) -> bool {
        match self.phase {
            Phase::Idle => e is Started,
            Phase::Done | Phase::Failed => false,
            Phase::GeneratingGame => e is GameReady || e is Failed,
            Phase::CollectingBoth => e is ActionsTaken || e is Failed,
            Phase::CollectingA | Phase::CollectingB => e is ActionTaken || e is Failed,
            Phase::Adjudicating => e is Verdict || e is Failed,
            Phase::Reflecting { .. } => e is Reflected || e is Failed,
            _ => e is Completed || e is Failed,
        }
    }

    pub fn accepts_event(&self, e: &MatchEvent) -> (r: bool)
        ensures
            r == self.accepts(*e),
    {
        match self.phase {
            Phase::Idle => matches!(e, MatchEvent::Started),
            Phase::Done | Phase::Failed => false,
            Phase::GeneratingGame => matches!(e, MatchEvent::GameReady { .. }) || matches!(e, MatchEvent::Failed { .. }),
            Phase::CollectingBoth => matches!(e, MatchEvent::ActionsTaken { .. }) || matches!(e, MatchEvent::Failed { .. }),
            Phase::CollectingA | Phase::CollectingB => matches!(e, MatchEvent::ActionTaken { .. }) || matches!(e, MatchEvent::Failed { .. }),
            Phase::Adjudicating => matches!(e, MatchEvent::Verdict { .. }) || matches!(e, MatchEvent::Failed { .. }),
            Phase::Reflecting { .. } => matches!(e, MatchEvent::Reflected { .. }) || matches!(e, MatchEvent::Failed { .. }),
            _ => matches!(e, MatchEvent::Completed) || matches!(e, MatchEvent::Failed { .. }),
        }
    }

    /// After the last command succeeded with `event`, the machine moves to
    /// `next` and gives the command `c`.
    pub open spec fn next_is(&self, event: MatchEvent, next: MatchMachine, c: MatchCommand) -> bool {
        match self.phase {
            Phase::Idle => next.phase == Phase::GeneratingGame && c is GenerateGame,
            Phase::GeneratingGame => {
                &&& event matches MatchEvent::GameReady { spec }
                &&& next.phase == Phase::Preparing
                &&& c is StartPlay
                &&& next.spec == Some(spec)
            },
            Phase::Preparing => if self.num_rounds() >= 1 {
                next.phase == Phase::OpeningRound && next.round == 1 && c == (MatchCommand::StartRound {
                    round: 1,
                })
            } else {
                next.phase == Phase::OpeningReflection && c is BeginReflection
            },
            Phase::OpeningRound => next.round == self.round && if self.simultaneous() {
                next.phase == Phase::CollectingBoth && c == (MatchCommand::CollectBoth {
                    round: self.round,
                })
            } else {
                &&& next.phase == Phase::CollectingA
                &&& c matches MatchCommand::Collect { side, round, opponent_action }
                &&& side == Side::A
                &&& round == self.round
                &&& opponent_action is None
            },
            Phase::CollectingBoth => {
                &&& event matches MatchEvent::ActionsTaken { action_a, action_b }
                &&& next.phase == Phase::AnnouncingA
                &&& next.action_a == Some(action_a)
                &&& next.action_b == Some(action_b)
                &&& announces(c, action_a)
            },
            Phase::CollectingA => {
                &&& event matches MatchEvent::ActionTaken { action: a }
                &&& next.phase == Phase::AnnouncingA
                &&& next.action_a == Some(a)
                &&& announces(c, a)
            },
            Phase::AnnouncingA => if self.simultaneous() {
                next.phase == Phase::AnnouncingB && announces(c, self.action_b.unwrap())
            } else {
                &&& next.phase == Phase::CollectingB
                &&& c matches MatchCommand::Collect { side, round, opponent_action }
                &&& side == Side::B
                &&& round == self.round
                &&& opponent_action matches Some(o)
                &&& o@ == self.action_a.unwrap().action_json@
            },
            Phase::CollectingB => {
                &&& event matches MatchEvent::ActionTaken { action: b }
                &&& next.phase == Phase::AnnouncingB
                &&& next.action_b == Some(b)
                &&& next.action_a == self.action_a
                &&& announces(c, b)
            },
            Phase::AnnouncingB => self.scores_round(next, c),
            Phase::Adjudicating => {
                &&& event matches MatchEvent::Verdict { verdict }
                &&& next.phase == Phase::Recording
                &&& records(
                    c,
                    self.round,
                    self.action_a.unwrap(),
                    self.action_b.unwrap(),
                    verdict.score_a@,
                    verdict.score_b@,
                    verdict.narration@,
                    Adjudicator::Gm,
                )
            },
            Phase::Recording => if self.round < self.num_rounds() {
                next.phase == Phase::OpeningRound && next.round == self.round + 1 && c == (MatchCommand::StartRound {
                    round: (self.round + 1) as u32,
                })
            } else {
                next.phase == Phase::OpeningReflection && c is BeginReflection
            },
            Phase::OpeningReflection => next.phase == (Phase::Reflecting { side: Side::A }) && c
                == (MatchCommand::Reflect { side: Side::A }),
            Phase::Reflecting { side } => match event {
                MatchEvent::Reflected { memo: Ok(memo) } => {
                    &&& next.phase == (Phase::SavingMemo { side })
                    &&& c matches MatchCommand::SaveMemo { side: s, memo: m }
                    &&& s == side
                    &&& m@ == memo@
                },
                _ => after_reflection(side, next, c),
            },
            Phase::SavingMemo { side } => after_reflection(side, next, c),
            Phase::Finishing => next.phase == Phase::Done && c is Stop,
            _ => true,
        }
    }

    /// Scoring a round whose actions have been announced: from the payoff
    /// matrix when it has the pair of moves, else by the game master.
    pub open spec fn scores_round(&self, next: MatchMachine, c: MatchCommand) -> bool {
        let a = self.action_a.unwrap();
        let b = self.action_b.unwrap();
        match matrix_score(self.spec.unwrap().payoff_matrix@, a.action_json@, b.action_json@) {
            Some((sa, sb)) => next.phase == Phase::Recording && records(
                c,
                self.round,
                a,
                b,
                sa,
                sb,
                Seq::empty(),
                Adjudicator::Engine,
            ),
            None => {
                &&& next.phase == Phase::Adjudicating
                &&& c matches MatchCommand::Adjudicate { round, action_a_json, action_b_json }
                &&& round == self.round
                &&& action_a_json@ == a.action_json@
                &&& action_b_json@ == b.action_json@
            },
        }
    }

    fn first_round_or_reflection(&mut self) -> (c: MatchCommand)
        requires
            old(self).spec is Some,
        ensures
            final(self).spec == old(self).spec,
            final(self).action_a == old(self).action_a,
            final(self).action_b == old(self).action_b,
            old(self).num_rounds() >= 1 ==> final(self).phase == Phase::OpeningRound
                && final(self).round == 1 && c == (MatchCommand::StartRound { round: 1 }),
            old(self).num_rounds() == 0 ==> final(self).phase == Phase::OpeningReflection
                && final(self).round == old(self).round && c is BeginReflection,
    {
        let n: u32 = match &self.spec {
            Some(s) => s.num_rounds,
            None => 0,
        };
        if n >= 1 {
            self.round = 1;
            self.phase = Phase::OpeningRound;
            MatchCommand::StartRound { round: 1 }
        } else {
            self.phase = Phase::OpeningReflection;
            MatchCommand::BeginReflection
        }
    }

    fn score_round(&mut self) -> (c: MatchCommand)
        requires
            old(self).wf(),
            old(self).phase == Phase::AnnouncingB,
        ensures
            final(self).spec == old(self).spec,
            final(self).round == old(self).round,
            final(self).action_a == old(self).action_a,
            final(self).action_b == old(self).action_b,
            old(self).scores_round(*final(self), c),
    {
        let (spec, a, b) = match (&self.spec, &self.action_a, &self.action_b) {
            (Some(s), Some(a), Some(b)) => (s, a, b),
            _ => {
                assert(false);
                return MatchCommand::Stop;
            },
        };
        match score_from_matrix(spec, a.action_json.as_str(), b.action_json.as_str()) {
            Some((sa, sb)) => {
                let c = MatchCommand::Record {
                    round: self.round,
                    action_a: copy_action(a),
                    action_b: copy_action(b),
                    score_a: sa,
                    score_b: sb,
                    narration: String::new(),
                    adjudicator: Adjudicator::Engine,
                };
                self.phase = Phase::Recording;
                c
            },
            None => {
                let c = MatchCommand::Adjudicate {
                    round: self.round,
                    action_a_json: a.action_json.clone(),
                    action_b_json: b.action_json.clone(),
                };
                self.phase = Phase::Adjudicating;
                c
            },
        }
    }

    /// Takes the outcome of the last command and gives the next command.
    #[verifier::rlimit(40)]
    pub fn step(&mut self, event: MatchEvent) -> (c: MatchCommand)
        requires
            old(self).wf(),
            old(self).accepts(event),
        ensures
            final(self).wf(),
            final(self).steps_left() < old(self).steps_left(),
            // a match's status only moves forward, and a command that writes a
            // status writes the one of the phase it leads into
            status_rank(phase_status(old(self).phase)) <= status_rank(phase_status(final(self).phase)),
            command_status(c) matches Some(s) ==> s == phase_status(final(self).phase),
            // a failure ends the match with its message
            event matches MatchEvent::Failed { message } ==> {
                &&& final(self).phase == Phase::Failed
                &&& c matches MatchCommand::Fail { message: m }
                &&& m@ == message@
            },
            !(event is Failed) ==> old(self).next_is(event, *final(self), c),
            // the game is set only when it is generated; an action only when
            // a player acts; the round only when the rounds begin or move on
            old(self).phase != Phase::GeneratingGame ==> final(self).spec == old(self).spec,
            !(old(self).phase == Phase::CollectingBoth || old(self).phase == Phase::CollectingA)
                ==> final(self).action_a == old(self).action_a,
            !(old(self).phase == Phase::CollectingBoth || old(self).phase == Phase::CollectingB)
                ==> final(self).action_b == old(self).action_b,
            !(old(self).phase == Phase::Preparing || old(self).phase == Phase::Recording)
                ==> final(self).round == old(self).round,
    {
        if let MatchEvent::Failed { message } = event {
            self.phase = Phase::Failed;
            return MatchCommand::Fail { message };
        }
        match self.phase {
            Phase::Idle => {
                self.phase = Phase::GeneratingGame;
                MatchCommand::GenerateGame
            },
            Phase::GeneratingGame => {
                if let MatchEvent::GameReady { spec } = event {
                    self.spec = Some(spec);
                    self.phase = Phase::Preparing;
                }
                MatchCommand::StartPlay
            },
            Phase::Preparing => self.first_round_or_reflection(),
            Phase::OpeningRound => {
                let simultaneous = match &self.spec {
                    Some(s) => s.simultaneous(),
                    None => true,
                };
                if simultaneous {
                    self.phase = Phase::CollectingBoth;
                    MatchCommand::CollectBoth { round: self.round }
                } else {
                    self.phase = Phase::CollectingA;
                    MatchCommand::Collect { side: Side::A, round: self.round, opponent_action: None }
                }
            },
            Phase::CollectingBoth => {
                if let MatchEvent::ActionsTaken { action_a, action_b } = event {
                    let announce = copy_action(&action_a);
                    self.action_a = Some(action_a);
                    self.action_b = Some(action_b);
                    self.phase = Phase::AnnouncingA;
                    MatchCommand::Announce { action: announce }
                } else {
                    MatchCommand::Stop
                }
            },
            Phase::CollectingA => {
                if let MatchEvent::ActionTaken { action } = event {
                    let announce = copy_action(&action);
                    self.action_a = Some(action);
                    self.phase = Phase::AnnouncingA;
                    MatchCommand::Announce { action: announce }
                } else {
                    MatchCommand::Stop
                }
            },
            Phase::AnnouncingA => {
                let simultaneous = match &self.spec {
                    Some(s) => s.simultaneous(),
                    None => true,
                };
                if simultaneous {
                    let c = match &self.action_b {
                        Some(b) => MatchCommand::Announce { action: copy_action(b) },
                        None => MatchCommand::Stop,
                    };
                    self.phase = Phase::AnnouncingB;
                    c
                } else {
                    let opponent = match &self.action_a {
                        Some(a) => Some(a.action_json.clone()),
                        None => None,
                    };
                    self.phase = Phase::CollectingB;
                    MatchCommand::Collect { side: Side::B, round: self.round, opponent_action: opponent }
                }
            },
            Phase::CollectingB => {
                if let MatchEvent::ActionTaken { action } = event {
                    let announce = copy_action(&action);
                    self.action_b = Some(action);
                    self.phase = Phase::AnnouncingB;
                    MatchCommand::Announce { action: announce }
                } else {
                    MatchCommand::Stop
                }
            },
            Phase::AnnouncingB => self.score_round(),
            Phase::Adjudicating => {
                if let MatchEvent::Verdict { verdict } = event {
                    let (a, b) = match (&self.action_a, &self.action_b) {
                        (Some(a), Some(b)) => (copy_action(a), copy_action(b)),
                        _ => {
                            return MatchCommand::Stop;
                        },
                    };
                    self.phase = Phase::Recording;
                    MatchCommand::Record {
                        round: self.round,
                        action_a: a,
                        action_b: b,
                        score_a: verdict.score_a,
                        score_b: verdict.score_b,
                        narration: verdict.narration,
                        adjudicator: Adjudicator::Gm,
                    }
                } else {
                    MatchCommand::Stop
                }
            },
            Phase::Recording => {
                let n: u32 = match &self.spec {
                    Some(s) => s.num_rounds,
                    None => 0,
                };
                if self.round < n {
                    self.round = self.round + 1;
                    self.phase = Phase::OpeningRound;
                    MatchCommand::StartRound { round: self.round }
                } else {
                    self.phase = Phase::OpeningReflection;
                    MatchCommand::BeginReflection
                }
            },
            Phase::OpeningReflection => {
                self.phase = Phase::Reflecting { side: Side::A };
                MatchCommand::Reflect { side: Side::A }
            },
            Phase::Reflecting { side } => {
                match event {
                    MatchEvent::Reflected { memo: Ok(memo) } => {
                        self.phase = Phase::SavingMemo { side };
                        MatchCommand::SaveMemo { side, memo }
                    },
                    _ => {
                        // a failed reflection does not void the match
                        match side {
                            Side::A => {
                                self.phase = Phase::Reflecting { side: Side::B };
                                MatchCommand::Reflect { side: Side::B }
                            },
                            Side::B => {
                                self.phase = Phase::Finishing;
                                MatchCommand::Finish
                            },
                        }
                    },
                }
            },
            Phase::SavingMemo { side } => {
                match side {
                    Side::A => {
                        self.phase = Phase::Reflecting { side: Side::B };
                        MatchCommand::Reflect { side: Side::B }
                    },
                    Side::B => {
                        self.phase = Phase::Finishing;
                        MatchCommand::Finish
                    },
                }
            },
            Phase::Finishing => {
                self.phase = Phase::Done;
                MatchCommand::Stop
            },
            Phase::Done | Phase::Failed => MatchCommand::Stop,
        }
    }
}

/// Once its game is known, a match of `n` rounds is over within `8 * n + 14`
/// further steps, since every step lowers `steps_left` (see `step`).
pub proof fn prepared_match_ends_within(m: MatchMachine)
    requires
        m.wf(),
        m.phase == Phase::Preparing,
    ensures
        m.steps_left() == 8 * (m.num_rounds() as nat) + 14,
{
}

/// A match that is over, done or failed, takes no further event.
pub proof fn over_match_takes_nothing(m: MatchMachine, e: MatchEvent)
    requires
        m.is_over(),
    ensures
        !m.accepts(e),
{
}

/// A match is done only once it has been finished: a step that leads to
/// `Done` comes from `Finishing`; the `Finish` command (decide the winner,
/// store the result) is given exactly when the match moves into `Finishing`;
/// and the step after the second player's reflection, whether its memo was
/// saved or the reflection failed, is that one.
pub proof fn done_only_after_finish(m: MatchMachine, e: MatchEvent, next: MatchMachine, c: MatchCommand)
    requires
        m.wf(),
        m.accepts(e),
        !(e is Failed),
        m.next_is(e, next, c),
    ensures
        next.phase == Phase::Done ==> m.phase == Phase::Finishing,
        c is Finish <==> next.phase == Phase::Finishing,
        m.phase == (Phase::SavingMemo { side: Side::B }) ==> next.phase == Phase::Finishing,
        m.phase == (Phase::Reflecting { side: Side::B }) && !(e matches MatchEvent::Reflected {
            memo: Ok(_),
        }) ==> next.phase == Phase::Finishing,
{
}

} // verus!
