//! Decisions of the animation loop and the interactive front end.
//!
//! The two background workers (update and transmit) and the key-driven
//! front end do their waiting, locking and I/O outside the library; every
//! decision they take — whether a tick acts, sleeps or exits, and what a
//! key press means on each screen — is a pure function here, so the loop
//! around it cannot busy-spin or miss the shutdown flag: every step other
//! than `Exit` tells the caller to sleep for its interval, and a cleared
//! alive flag exits at the very next step, whether or not transmission is
//! enabled.

use vstd::prelude::*;

use crate::input::KeyInput;

verus! {

#[derive(Clone, Copy, Debug, PartialEq, Eq, Structural)]
pub enum WorkerStep {
    /// The alive flag is down: leave the loop.
    Exit,
    /// Take the lock, do the tick's work, reset the tick timer, then sleep
    /// one interval.
    Work,
    /// Nothing to do this pass: sleep one interval and check again.
    Idle,
}

/// Decide one pass of a worker loop from the alive flag, the enabled flag,
/// and the time elapsed since the last acted tick.
pub fn worker_step(alive: bool, enabled: bool, elapsed_ms: u64, tick_ms: u64) -> (r: WorkerStep)
    ensures
        (r == WorkerStep::Exit) <==> !alive,
        (r == WorkerStep::Work) <==> (alive && enabled && elapsed_ms >= tick_ms),
        (r == WorkerStep::Idle) <==> (alive && !(enabled && elapsed_ms >= tick_ms)),
{
    if !alive {
        WorkerStep::Exit
    } else if enabled && elapsed_ms >= tick_ms {
        WorkerStep::Work
    } else {
        WorkerStep::Idle
    }
}

#[derive(Clone, Copy, Debug, PartialEq, Eq, Structural)]
pub enum Screen {
    MainView,
    Exiting,
}

#[derive(Clone, Copy, Debug, PartialEq, Eq, Structural)]
pub enum AppAction {
    /// Clear the alive flag, join the workers (transmit first, then
    /// update), and leave the front-end loop.
    Shutdown,
    PrevEffect,
    NextEffect,
    IncreaseBrightness,
    DecreaseBrightness,
    ToggleEnabled,
    /// Hand the key to the active effect under the write lock.
    EffectInput(KeyInput),
    Nothing,
}

/// Route one key press: quitting needs an explicit confirmation once
/// requested, and any other key on the confirmation screen returns to the
/// main view.
pub fn handle_key_event(screen: Screen, key: KeyInput) -> (r: (Screen, AppAction))
    ensures
        screen == Screen::Exiting ==> {
            &&& (key == KeyInput::Char('q') || key == KeyInput::Char('y') || key == KeyInput::Char(
                'Y',
            )) ==> r == (Screen::Exiting, AppAction::Shutdown)
            &&& !(key == KeyInput::Char('q') || key == KeyInput::Char('y') || key
                == KeyInput::Char('Y')) ==> r == (Screen::MainView, AppAction::Nothing)
        },
        screen == Screen::MainView ==> {
            &&& key == KeyInput::Char('q') ==> r == (Screen::Exiting, AppAction::Nothing)
            &&& key == KeyInput::Left ==> r == (Screen::MainView, AppAction::PrevEffect)
            &&& key == KeyInput::Right ==> r == (Screen::MainView, AppAction::NextEffect)
            &&& (key == KeyInput::Char('+') || key == KeyInput::Char('=')) ==> r == (
            Screen::MainView,
            AppAction::IncreaseBrightness,
            )
            &&& (key == KeyInput::Char('-') || key == KeyInput::Char('_')) ==> r == (
            Screen::MainView,
            AppAction::DecreaseBrightness,
            )
            &&& key == KeyInput::Char('e') ==> r == (Screen::MainView, AppAction::ToggleEnabled)
            &&& !(key == KeyInput::Char('q') || key == KeyInput::Left || key == KeyInput::Right
                || key == KeyInput::Char('+') || key == KeyInput::Char('=') || key
                == KeyInput::Char('-') || key == KeyInput::Char('_') || key == KeyInput::Char('e'))
                ==> r == (Screen::MainView, AppAction::EffectInput(key))
        },
{
    match screen {
        Screen::Exiting => match key {
            KeyInput::Char('q') => (Screen::Exiting, AppAction::Shutdown),
            KeyInput::Char('y') => (Screen::Exiting, AppAction::Shutdown),
            KeyInput::Char('Y') => (Screen::Exiting, AppAction::Shutdown),
            _ => (Screen::MainView, AppAction::Nothing),
        },
        Screen::MainView => match key {
            KeyInput::Char('q') => (Screen::Exiting, AppAction::Nothing),
            KeyInput::Left => (Screen::MainView, AppAction::PrevEffect),
            KeyInput::Right => (Screen::MainView, AppAction::NextEffect),
            KeyInput::Char('+') => (Screen::MainView, AppAction::IncreaseBrightness),
            KeyInput::Char('=') => (Screen::MainView, AppAction::IncreaseBrightness),
            KeyInput::Char('-') => (Screen::MainView, AppAction::DecreaseBrightness),
            KeyInput::Char('_') => (Screen::MainView, AppAction::DecreaseBrightness),
            KeyInput::Char('e') => (Screen::MainView, AppAction::ToggleEnabled),
            _ => (Screen::MainView, AppAction::EffectInput(key)),
        },
    }
}

} // verus!
