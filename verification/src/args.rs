//! What the user asks for on the command line, and the session that it
//! starts.

use crate::dates::{current_basho, get_current_basho_id, Date};
use crate::division::Division;
use crate::model::opt_text;
use crate::session::{App, AppState, AppView};
use crate::tournament::TournamentId;
use vstd::prelude::*;

verus! {

/// The arguments of the command line.
pub struct Args {
    /// The tournament as six digits, year and month.
    pub basho: Option<String>,
    /// The day of the tournament, from 1 to 15.
    pub day: Option<u8>,
    /// The division to show.
    pub division: Division,
    /// Whether to start on the ranking list.
    pub banzuke: bool,
}

/// The tournament that the arguments name: the one given, where its text is
/// an identifier, else the one that is current today. Nothing where a
/// tournament is given and its text is no identifier.
pub open spec fn chosen_basho(basho: Option<Seq<char>>, today: Date) -> Option<TournamentId> {
    match basho {
        Some(s) => TournamentId::spec_parse(s),
        None => current_basho(today),
    }
}

impl Args {
    /// The view that the session starts on.
    pub open spec fn spec_initial_view(self) -> AppView {
        if self.banzuke {
            AppView::Banzuke
        } else {
            AppView::Torikumi
        }
    }

    /// The tournament to start on.
    pub fn tournament(&self, today: Date) -> (id: Option<TournamentId>)
        ensures
            id == chosen_basho(opt_text(self.basho), today),
    {
        match &self.basho {
            Some(s) => TournamentId::parse(s.as_str()),
            None => get_current_basho_id(today),
        }
    }

    /// The view that the session starts on.
    pub fn initial_view(&self) -> (view: AppView)
        ensures
            view == self.spec_initial_view(),
    {
        if self.banzuke {
            AppView::Banzuke
        } else {
            AppView::Torikumi
        }
    }

    /// The session for a tournament and a day: a new one in the division
    /// asked for, on the view asked for.
    pub fn start(&self, id: TournamentId, day: u8) -> (app: App)
        ensures
            app@ == (AppState {
                current_view: self.spec_initial_view(),
                ..AppState::initial(id, self.division, day as int)
            }),
    {
        let mut app = App::new(id, self.division, day);
        app.current_view = self.initial_view();
        app
    }
}

} // verus!
