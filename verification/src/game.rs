//! The course of a game: which turns are played, and when play ends.
//!
//! The game does no input or output itself. Its driver begins each turn
//! with [`Game::begin_turn`], shows the pet, reads a line, hands the
//! command to [`Game::handle`], and does what the answer says.

use vstd::prelude::*;
use crate::command::Command;
use crate::pet::{DecayRolls, Mood, Pet};

verus! {

/// How long the driver pauses after a command, in milliseconds.
pub const TURN_PAUSE_MILLIS: u64 = 500;

/// Whether the game is still being played.
#[derive(Clone, Copy, Debug, PartialEq, Eq, Structural)]
pub enum Phase {
    Running,
    Terminated,
}

/// What the driver does after a command has been handled.
#[derive(Clone, Copy, Debug, PartialEq, Eq, Structural)]
pub enum Next {
    /// Pause, clear the screen and begin another turn.
    Turn,
    /// Pause, tell the player that the pet has died, and stop.
    Obituary,
    /// Stop at once.
    Stop,
}

/// A game: the pet and the phase of play.
#[derive(Clone, Copy, Debug, PartialEq, Eq, Structural)]
pub struct Game {
    pub pet: Pet,
    pub phase: Phase,
}

impl Game {
    /// A game at its start: a new pet, and play is on.
    pub open spec fn initial() -> Game {
        Game { pet: Pet::initial(), phase: Phase::Running }
    }

    /// The game after a turn has begun with the given rolls: the pet of a
    /// running game ticks, a terminated game stays as it is.
    pub open spec fn begun(self, rolls: DecayRolls) -> Game {
        match self.phase {
            Phase::Running => Game { pet: self.pet.ticked(rolls), ..self },
            Phase::Terminated => self,
        }
    }

    /// The pet after a command: fed, played with, or left alone.
    pub open spec fn pet_after(self, command: Command) -> Pet {
        match command {
            Command::Feed => self.pet.fed(),
            Command::Play => self.pet.played(),
            Command::Quit | Command::Wait | Command::Invalid => self.pet,
        }
    }

    /// What the driver is told after a command. A terminated game and a
    /// command to quit stop it at once. Otherwise the mood of the pet
    /// decides, as the last tick left it.
    pub open spec fn answer(self, command: Command) -> Next {
        if self.phase == Phase::Terminated || command == Command::Quit {
            Next::Stop
        } else if self.pet.mood == Mood::Dead {
            Next::Obituary
        } else {
            Next::Turn
        }
    }

    /// The game after a command. A terminated game stays as it is. In a
    /// running game the command acts on the pet, and play ends when the
    /// answer is anything but another turn.
    pub open spec fn handled(self, command: Command) -> Game {
        match self.phase {
            Phase::Terminated => self,
            Phase::Running => Game {
                pet: self.pet_after(command),
                phase: if self.answer(command) == Next::Turn {
                    Phase::Running
                } else {
                    Phase::Terminated
                },
            },
        }
    }

    /// Starts a game.
    pub fn new() -> (game: Game)
        ensures
            game == Game::initial(),
            game.pet.wf(),
    {
        Game { pet: Pet::new(), phase: Phase::Running }
    }

    /// Whether play is on.
    pub fn is_running(&self) -> (running: bool)
        ensures
            running == (self.phase == Phase::Running),
    {
        self.phase == Phase::Running
    }

    /// Begins a turn with the given rolls.
    pub fn begin_turn_with(&mut self, rolls: DecayRolls)
        ensures
            *final(self) == old(self).begun(rolls),
            final(self).phase == old(self).phase,
            old(self).pet.wf() ==> final(self).pet.wf(),
    {
        if self.phase == Phase::Running {
            self.pet.tick_with(rolls);
        }
    }

    /// Begins a turn, with rolls drawn at random.
    pub fn begin_turn(&mut self)
        ensures
            exists|rolls: DecayRolls| rolls.in_range() && *final(self) == old(self).begun(rolls),
            final(self).phase == old(self).phase,
            old(self).phase == Phase::Terminated ==> *final(self) == *old(self),
            old(self).pet.wf() ==> final(self).pet.wf(),
    {
        let rolls = DecayRolls::draw();
        self.begin_turn_with(rolls);
    }

    /// Handles the command of this turn and says what the driver does next.
    pub fn handle(&mut self, command: Command) -> (next: Next)
        ensures
            *final(self) == old(self).handled(command),
            next == old(self).answer(command),
            next == Next::Turn <==> final(self).phase == Phase::Running,
            old(self).phase == Phase::Terminated ==> *final(self) == *old(self),
            command == Command::Quit ==> final(self).pet == old(self).pet,
            old(self).pet.wf() ==> final(self).pet.wf(),
    {
        if self.phase == Phase::Terminated {
            return Next::Stop;
        }
        match command {
            Command::Feed => self.pet.feed(),
            Command::Play => self.pet.play(),
            Command::Quit => {
                self.phase = Phase::Terminated;
                return Next::Stop;
            },
            Command::Wait | Command::Invalid => {},
        }
        if self.pet.mood == Mood::Dead {
            self.phase = Phase::Terminated;
            Next::Obituary
        } else {
            Next::Turn
        }
    }
}

/// A command to quit ends a running game at once: play is over, the pet is
/// as it was, the driver is told to stop, and no turn begun afterwards
/// ticks the pet.
pub proof fn lemma_quit_ends_play(game: Game, rolls: DecayRolls)
    requires
        game.phase == Phase::Running,
    ensures
        game.handled(Command::Quit).phase == Phase::Terminated,
        game.handled(Command::Quit).pet == game.pet,
        game.answer(Command::Quit) == Next::Stop,
        game.handled(Command::Quit).begun(rolls) == game.handled(Command::Quit),
{
}

/// A terminated game stays as it is, whatever is asked of it.
pub proof fn lemma_terminated_is_final(game: Game, command: Command, rolls: DecayRolls)
    requires
        game.phase == Phase::Terminated,
    ensures
        game.begun(rolls) == game,
        game.handled(command) == game,
        game.answer(command) == Next::Stop,
{
}

/// A running game ends on a command exactly when the command is to quit
/// or the last tick left the pet dead.
pub proof fn lemma_play_ends_by_quit_or_death(game: Game, command: Command)
    requires
        game.phase == Phase::Running,
    ensures
        game.handled(command).phase == Phase::Terminated <==> command == Command::Quit
            || game.pet.mood == Mood::Dead,
{
}

} // verus!
