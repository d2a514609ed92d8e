//! The two operations behind the control surface: reading the settings for
//! display, and planning a write of new settings.

use crate::autostart::{reconcile, transition, AutostartAction};
use crate::settings::{
    at_rest, censored, default_with, is_uuid_text, persisted, sentinel, ConfigError, Loaded,
    Settings, SettingsView,
};
use vstd::prelude::*;

verus! {

/// One thing that a write of new settings asks of the program.
#[derive(Debug)]
pub enum Step {
    /// Write this record to the settings file.
    Write(Settings),
    /// Enable or disable the login launcher.
    Launcher(AutostartAction),
}

/// A step as plain values.
pub enum StepView {
    Write(SettingsView),
    Launcher(AutostartAction),
}

impl View for Step {
    type V = StepView;

    open spec fn view(&self) -> StepView {
        match *self {
            Step::Write(s) => StepView::Write(s@),
            Step::Launcher(a) => StepView::Launcher(a),
        }
    }
}

/// What a write of new settings asks of the program, in this order: write
/// `create` to the settings file, if there is one; carry out `launcher` on
/// the login launcher; write `record` to the settings file. The order is
/// reconcile, then persist: where a step fails the program stops and reports
/// the error, and nothing done before is rolled back, so a failed launcher
/// change leaves the stored settings as they were.
#[derive(Debug)]
pub struct ConfigUpdate {
    /// Fresh default settings to write first, where none could be read.
    pub create: Option<Settings>,
    /// The change to the launch-on-login registration.
    pub launcher: AutostartAction,
    /// The record that goes to storage for the new settings.
    pub record: Settings,
}

impl ConfigUpdate {
    /// The steps of this update in the order in which they are carried out:
    /// the fresh defaults, if any; the launcher change, unless there is none
    /// to make; the record.
    pub open spec fn plan(self) -> Seq<StepView> {
        let first = match self.create {
            Some(fresh) => seq![StepView::Write(fresh@)],
            None => Seq::empty(),
        };
        let second = match self.launcher {
            AutostartAction::Nothing => Seq::empty(),
            change => seq![StepView::Launcher(change)],
        };
        first + second + seq![StepView::Write(self.record@)]
    }

    /// The steps of this update, in the order in which they are carried out.
    /// The program stops at the first step that fails.
    pub fn steps(self) -> (r: Vec<Step>)
        ensures
            r@.map_values(|s: Step| s@) == self.plan(),
    {
        let mut r: Vec<Step> = Vec::new();
        match self.create {
            Some(fresh) => {
                r.push(Step::Write(fresh));
            },
            None => {},
        }
        match self.launcher {
            AutostartAction::Nothing => {},
            change => {
                r.push(Step::Launcher(change));
            },
        }
        r.push(Step::Write(self.record));
        proof {
            assert(r@.map_values(|s: Step| s@) =~= self.plan());
        }
        r
    }
}

/// The settings that a write starts from: those that were read, or else the
/// fresh defaults that were created in their place.
pub open spec fn base_of(stored: Result<Settings, ConfigError>, create: Option<Settings>) -> SettingsView {
    match stored {
        Ok(s) => s@,
        Err(_) => create.unwrap()@,
    }
}

/// The settings for display, given `stored`, the uncensored outcome of
/// reading the settings file. A record that was read is handed out with its
/// secret censored. After a failed read fresh default settings are handed
/// out, and are to be written. It never fails.
pub fn get_config(stored: Result<Settings, ConfigError>) -> (r: Loaded)
    ensures
        match stored {
            Ok(s) => r.settings@ == censored(s@, true) && r.persist is None,
            Err(_) => {
                &&& r.settings@ == default_with(r.settings@.id)
                &&& r.settings@.id.len() == 36
                &&& is_uuid_text(r.settings@.id)
                &&& r.persist is Some
                &&& r.persist.unwrap()@ == r.settings@
            },
        },
{
    Settings::load_or_create(stored, true)
}

/// Plans the write of `new`, given `stored`, the uncensored outcome of
/// reading the settings file. Where no record could be read, fresh defaults
/// take its place and are to be written first. The login launcher is moved
/// from the old autostart flag to the new one, and the record to store is
/// `new` with the identifier of the old settings, which never changes, and
/// with its secret resolved against them. The record holds no plaintext,
/// unless the sentinel kept one that the old settings had.
pub fn set_config(stored: Result<Settings, ConfigError>, new: &Settings) -> (r: ConfigUpdate)
    ensures
        r.create is Some <==> stored is Err,
        r.create is Some ==> r.create.unwrap()@ == default_with(r.create.unwrap()@.id)
            && r.create.unwrap()@.id.len() == 36 && is_uuid_text(r.create.unwrap()@.id),
        r.launcher == transition(new@.autostart, base_of(stored, r.create).autostart),
        persisted(new@, Ok(base_of(stored, r.create))) == Ok::<SettingsView, ConfigError>(
            r.record@,
        ),
        r.record@.id == base_of(stored, r.create).id,
        at_rest(base_of(stored, r.create)) ==> at_rest(r.record@),
        new@.password != Some(sentinel()) ==> at_rest(r.record@),
{
    match stored {
        Ok(held) => {
            let launcher = reconcile(new.autostart, held.autostart);
            let record = new.store_over(&held);
            ConfigUpdate { create: None, launcher, record }
        },
        Err(_) => {
            let fresh = Settings::create_default();
            let launcher = reconcile(new.autostart, fresh.autostart);
            let record = new.store_over(&fresh);
            ConfigUpdate { create: Some(fresh), launcher, record }
        },
    }
}

} // verus!
