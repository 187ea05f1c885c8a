//! Reloading the data of a tournament: which day is shown, what is fetched
//! next, and what each answer of the data service makes of the session.

use crate::banzuke::{merge_banzuke, merged};
use crate::dates::{
    date_of, month_timing, month_timing_of, stamp_date, stamp_date_of, Date, Timing,
};
use crate::division::Division;
use crate::model::{
    entries_view, opt_text, BanzukeResponse, Basho, TorikumiEntry, TorikumiResponse,
};
use crate::session::{App, AppState};
use crate::text::{decimal_text, push_decimal};
use crate::tournament::TournamentId;
use vstd::prelude::*;

verus! {

/// How far a reload has come: what it waits for.
#[derive(Clone, Copy, Debug, PartialEq, Eq, Structural)]
pub enum ReloadStage {
    Info,
    Bouts,
    Rankings,
    Done,
}

/// What is to be done next for a reload.
#[derive(Clone, Copy, Debug, PartialEq, Eq, Structural)]
pub enum ReloadAction {
    /// Fetch the tournament information.
    FetchInfo,
    /// Fetch the bouts of this day.
    FetchBouts(u8),
    /// Fetch the ranking list.
    FetchRankings,
    /// Nothing is left to fetch.
    Finished,
}

/// What came back from the data service; nothing stands for a failure.
pub enum ReloadEvent {
    /// The tournament information, and the day on which it came.
    Info(Option<Basho>, Date),
    Bouts(Option<TorikumiResponse>),
    Rankings(Option<BanzukeResponse>),
}

/// One reload under way.
#[derive(Clone, Copy, Debug, PartialEq, Eq, Structural)]
pub struct Reload {
    /// The day that was asked for.
    pub requested_day: u8,
    /// The number of match days of the division.
    pub max_day: u8,
    /// The day that is shown.
    pub resolved_day: u8,
    /// Whether the tournament has not begun.
    pub future: bool,
    /// Whether the tournament is over.
    pub finished: bool,
    pub info_failed: bool,
    pub bouts_failed: bool,
    pub rankings_failed: bool,
    pub stage: ReloadStage,
}

/// The day nearest to `day` among the days from 1 to `max`.
pub open spec fn clamped_day(day: int, max: int) -> int {
    if day < 1 {
        1
    } else if day > max {
        max
    } else {
        day
    }
}

/// The day that is shown. Where the user has just picked another tournament,
/// it is the first day of one that has not begun and the last day of one that
/// is over; in every other case it is the day asked for, brought into range.
pub open spec fn resolved_day(
    clamped: int,
    max: int,
    changed: bool,
    future: bool,
    finished: bool,
) -> int {
    if future {
        if changed {
            1
        } else {
            clamped
        }
    } else if changed && finished {
        max
    } else {
        clamped
    }
}

/// Whether `today` lies before the day that a time stamp names; not so where
/// there is none or it names no day.
pub open spec fn starts_after(stamp: Option<Seq<char>>, today: Date) -> bool {
    match stamp {
        Some(s) => match stamp_date(s) {
            Some(read) => today.spec_before(date_of(read)),
            None => false,
        },
        None => false,
    }
}

/// Whether `today` lies after the day that a time stamp names; not so where
/// there is none or it names no day.
pub open spec fn ended_before(stamp: Option<Seq<char>>, today: Date) -> bool {
    match stamp {
        Some(s) => match stamp_date(s) {
            Some(read) => date_of(read).spec_before(today),
            None => false,
        },
        None => false,
    }
}

/// Whether a tournament has not begun, and whether it is over. It has not
/// begun where today lies before its start date, it is over where today lies
/// after its end date; where the dates say neither, its month says it: a later
/// month than today's has not begun, an earlier one is over.
pub open spec fn info_timing(info: Basho, id: TournamentId, today: Date) -> (bool, bool) {
    let future = starts_after(opt_text(info.start_date), today);
    let finished = ended_before(opt_text(info.end_date), today);
    if !future && !finished {
        (month_timing(id, today) == Timing::Future, month_timing(id, today) == Timing::Past)
    } else {
        (future, finished)
    }
}

/// The bouts that an answer holds; none where it lists none.
pub open spec fn bouts_of(answer: TorikumiResponse) -> Seq<TorikumiEntry> {
    match answer.torikumi {
        Some(bouts) => bouts@,
        None => Seq::empty(),
    }
}

impl Reload {
    /// A reload at its start: the day asked for is brought into the range of
    /// the division, and the tournament information is waited for.
    pub open spec fn start(requested_day: int, division: Division) -> Reload {
        Reload {
            requested_day: requested_day as u8,
            max_day: division.spec_match_length() as u8,
            resolved_day: clamped_day(requested_day, division.spec_match_length()) as u8,
            future: false,
            finished: false,
            info_failed: false,
            bouts_failed: false,
            rankings_failed: false,
            stage: ReloadStage::Info,
        }
    }

    /// What is to be done next.
    pub open spec fn spec_next_action(self) -> ReloadAction {
        match self.stage {
            ReloadStage::Info => ReloadAction::FetchInfo,
            ReloadStage::Bouts => ReloadAction::FetchBouts(self.resolved_day),
            ReloadStage::Rankings => ReloadAction::FetchRankings,
            ReloadStage::Done => ReloadAction::Finished,
        }
    }

    /// Whether the day that is shown is not the day that was asked for.
    pub open spec fn day_overridden(self) -> bool {
        self.resolved_day != self.requested_day
    }

    /// The reload after the tournament information came, or failed to come.
    /// The bouts of a tournament that has not begun are not fetched.
    pub open spec fn after_info(
        self,
        id: TournamentId,
        changed: bool,
        info: Option<Basho>,
        today: Date,
    ) -> Reload {
        match info {
            Some(basho) => {
                let (future, finished) = info_timing(basho, id, today);
                Reload {
                    future,
                    finished,
                    resolved_day: resolved_day(
                        self.resolved_day as int,
                        self.max_day as int,
                        changed,
                        future,
                        finished,
                    ) as u8,
                    stage: if future {
                        ReloadStage::Rankings
                    } else {
                        ReloadStage::Bouts
                    },
                    ..self
                }
            },
            None => Reload { info_failed: true, stage: ReloadStage::Bouts, ..self },
        }
    }

    /// The reload after an answer came. An answer that is not waited for
    /// changes nothing.
    pub open spec fn after_event(self, app: AppState, event: ReloadEvent) -> Reload {
        match event {
            ReloadEvent::Info(info, today) => if self.stage == ReloadStage::Info {
                self.after_info(app.basho_id, app.basho_changed, info, today)
            } else {
                self
            },
            ReloadEvent::Bouts(answer) => if self.stage == ReloadStage::Bouts {
                Reload { bouts_failed: answer is None, stage: ReloadStage::Rankings, ..self }
            } else {
                self
            },
            ReloadEvent::Rankings(answer) => if self.stage == ReloadStage::Rankings {
                Reload { rankings_failed: answer is None, stage: ReloadStage::Done, ..self }
            } else {
                self
            },
        }
    }

    /// The line that tells how a reload went: tournament, division and day,
    /// whether the day was chosen for the user, and what could not be had.
    pub open spec fn status(self, id: TournamentId, division: Division) -> Seq<char> {
        "Reloaded "@ + id.text() + " "@ + division.spec_name() + " Day "@ + decimal_text(
            self.resolved_day as nat,
        ) + (if self.day_overridden() {
            " (auto-selected)"@
        } else {
            Seq::empty()
        }) + (if self.info_failed {
            "; tournament info unavailable"@
        } else {
            Seq::empty()
        }) + (if self.bouts_failed {
            "; bouts unavailable"@
        } else {
            Seq::empty()
        }) + (if self.rankings_failed {
            "; rankings unavailable"@
        } else {
            Seq::empty()
        })
    }

    pub fn next_action(&self) -> (action: ReloadAction)
        ensures
            action == self.spec_next_action(),
    {
        match self.stage {
            ReloadStage::Info => ReloadAction::FetchInfo,
            ReloadStage::Bouts => ReloadAction::FetchBouts(self.resolved_day),
            ReloadStage::Rankings => ReloadAction::FetchRankings,
            ReloadStage::Done => ReloadAction::Finished,
        }
    }
}

/// The text shown while a reload is under way.
pub open spec fn overlay_text(id: TournamentId, division: Division) -> Seq<char> {
    "Reloading data for "@ + id.text() + " "@ + division.spec_name() + "..."@
}

impl AppState {
    /// The session after a reload was asked for: the request is taken, the
    /// status line is blank and the overlay says what is loaded.
    pub open spec fn reload_taken(self) -> AppState {
        if self.needs_reload {
            AppState {
                needs_reload: false,
                status_message: None,
                loading_overlay: Some(overlay_text(self.basho_id, self.division)),
                ..self
            }
        } else {
            self
        }
    }

    /// The session after the tournament information came, or failed to come:
    /// information that came is stored, the day is the resolved one, and a
    /// tournament that has not begun has no bouts.
    pub open spec fn after_info(self, reload: Reload, info: Option<Basho>, today: Date) -> AppState {
        self.with_info(reload.after_info(self.basho_id, self.basho_changed, info, today), info)
    }

    /// The session with the tournament information, where it came, and with
    /// the day and the bouts that the reload `next` asks for.
    pub open spec fn with_info(self, next: Reload, info: Option<Basho>) -> AppState {
        AppState {
            basho: match info {
                Some(basho) => Some(basho),
                None => self.basho,
            },
            day: next.resolved_day as int,
            torikumi: if next.future {
                Some(Seq::empty())
            } else {
                self.torikumi
            },
            ..self
        }
    }

    /// The session after the bouts came, or failed to come: bouts that came
    /// are stored, and no bouts where they failed to come or none are listed.
    pub open spec fn after_bouts(self, answer: Option<TorikumiResponse>) -> AppState {
        AppState {
            torikumi: Some(
                match answer {
                    Some(a) => bouts_of(a),
                    None => Seq::empty(),
                },
            ),
            ..self
        }
    }

    /// The session after the ranking list came, or failed to come: a list
    /// that came is merged and stored with the wins and losses that it gives;
    /// one that failed to come leaves the old one. With that the reload is
    /// over, and the tournament counts as picked no longer.
    pub open spec fn after_rankings(self, answer: Option<BanzukeResponse>) -> AppState {
        let stored = match answer {
            Some(a) => self.with_banzuke(merged(entries_view(a.east@), entries_view(a.west@))),
            None => self,
        };
        AppState { basho_changed: false, ..stored }
    }

    /// The session after an answer came. An answer that is not waited for
    /// changes nothing.
    pub open spec fn after_reload_event(self, reload: Reload, event: ReloadEvent) -> AppState {
        match event {
            ReloadEvent::Info(info, today) => if reload.stage == ReloadStage::Info {
                self.after_info(reload, info, today)
            } else {
                self
            },
            ReloadEvent::Bouts(answer) => if reload.stage == ReloadStage::Bouts {
                self.after_bouts(answer)
            } else {
                self
            },
            ReloadEvent::Rankings(answer) => if reload.stage == ReloadStage::Rankings {
                self.after_rankings(answer)
            } else {
                self
            },
        }
    }
}

/// The resolved day lies in the range of the division, and is the day asked
/// for brought into range unless the user has just picked a tournament that
/// has not begun or is over.
pub proof fn lemma_resolved_day(
    requested: int,
    max: int,
    changed: bool,
    future: bool,
    finished: bool,
)
    requires
        1 <= max,
    ensures
        1 <= clamped_day(requested, max) <= max,
        requested > max ==> clamped_day(requested, max) == max,
        requested < 1 ==> clamped_day(requested, max) == 1,
        1 <= requested <= max ==> clamped_day(requested, max) == requested,
        1 <= resolved_day(clamped_day(requested, max), max, changed, future, finished) <= max,
        !(changed && (future || finished)) ==> resolved_day(
            clamped_day(requested, max),
            max,
            changed,
            future,
            finished,
        ) == clamped_day(requested, max),
{
}

/// Through a whole reload the day that is shown stays in the range of the
/// division.
pub proof fn lemma_reload_keeps_day_in_range(reload: Reload, app: AppState, event: ReloadEvent)
    requires
        1 <= reload.resolved_day <= reload.max_day,
    ensures
        1 <= reload.after_event(app, event).resolved_day <= reload.after_event(app, event).max_day,
        reload.after_event(app, event).max_day == reload.max_day,
{
}

/// The answers that a reload still waits for, at most.
pub open spec fn answers_left(stage: ReloadStage) -> nat {
    match stage {
        ReloadStage::Info => 3,
        ReloadStage::Bouts => 2,
        ReloadStage::Rankings => 1,
        ReloadStage::Done => 0,
    }
}

/// Whether an answer is the one that a reload waits for.
pub open spec fn awaited(stage: ReloadStage, event: ReloadEvent) -> bool {
    match event {
        ReloadEvent::Info(_, _) => stage == ReloadStage::Info,
        ReloadEvent::Bouts(_) => stage == ReloadStage::Bouts,
        ReloadEvent::Rankings(_) => stage == ReloadStage::Rankings,
    }
}

/// Each answer that is waited for brings a reload nearer to its end, so that
/// a reload is over after three answers at most; and a reload asks for
/// nothing more just when it waits for no answer.
pub proof fn lemma_reload_advances(reload: Reload, app: AppState, event: ReloadEvent)
    requires
        awaited(reload.stage, event),
    ensures
        answers_left(reload.after_event(app, event).stage) < answers_left(reload.stage),
        reload.spec_next_action() == ReloadAction::Finished <==> answers_left(reload.stage) == 0,
{
}

/// For a tournament that has not begun no bouts are fetched and none are
/// shown; where the user has just picked it, it is shown on its first day.
pub proof fn lemma_future_tournament_has_no_bouts(
    reload: Reload,
    app: AppState,
    info: Basho,
    today: Date,
)
    requires
        reload.stage == ReloadStage::Info,
        info_timing(info, app.basho_id, today).0,
    ensures
        reload.after_event(app, ReloadEvent::Info(Some(info), today)).spec_next_action()
            == ReloadAction::FetchRankings,
        app.after_reload_event(reload, ReloadEvent::Info(Some(info), today)).torikumi == Some(
            Seq::<TorikumiEntry>::empty(),
        ),
        app.basho_changed ==> app.after_reload_event(
            reload,
            ReloadEvent::Info(Some(info), today),
        ).day == 1,
{
}

/// Whether `today` lies before the day that a time stamp names.
fn starts_after_today(stamp: &Option<String>, today: Date) -> (r: bool)
    ensures
        r == starts_after(opt_text(*stamp), today),
{
    match stamp {
        Some(s) => match stamp_date_of(s.as_str()) {
            Some(date) => today.before(&date),
            None => false,
        },
        None => false,
    }
}

/// Whether `today` lies after the day that a time stamp names.
fn ended_before_today(stamp: &Option<String>, today: Date) -> (r: bool)
    ensures
        r == ended_before(opt_text(*stamp), today),
{
    match stamp {
        Some(s) => match stamp_date_of(s.as_str()) {
            Some(date) => date.before(&today),
            None => false,
        },
        None => false,
    }
}

/// Whether a tournament has not begun, and whether it is over.
pub fn timing_of_info(info: &Basho, id: TournamentId, today: Date) -> (r: (bool, bool))
    ensures
        r == info_timing(*info, id, today),
{
    let future = starts_after_today(&info.start_date, today);
    let finished = ended_before_today(&info.end_date, today);
    if !future && !finished {
        match month_timing_of(id, today) {
            Timing::Future => (true, false),
            Timing::Past => (false, true),
            Timing::Present => (false, false),
        }
    } else {
        (future, finished)
    }
}

/// The day nearest to `day` among the days from 1 to `max`.
pub fn clamp_day(day: u8, max: u8) -> (r: u8)
    ensures
        r == clamped_day(day as int, max as int),
        1 <= max ==> 1 <= r <= max,
        1 <= max && day > max ==> r == max,
        day < 1 ==> r == 1,
{
    if day < 1 {
        1
    } else if day > max {
        max
    } else {
        day
    }
}

/// The line that tells how a reload went.
pub fn reload_status(reload: &Reload, id: TournamentId, division: Division) -> (s: String)
    ensures
        s@ == reload.status(id, division),
{
    let mut s = String::from_str("Reloaded ");
    s.append(id.to_string().as_str());
    s.append(" ");
    s.append(division.name());
    s.append(" Day ");
    push_decimal(&mut s, reload.resolved_day as u32);
    if reload.resolved_day != reload.requested_day {
        s.append(" (auto-selected)");
    }
    if reload.info_failed {
        s.append("; tournament info unavailable");
    }
    if reload.bouts_failed {
        s.append("; bouts unavailable");
    }
    if reload.rankings_failed {
        s.append("; rankings unavailable");
    }
    proof {
        let e = Seq::<char>::empty();
        let base = "Reloaded "@ + id.text() + " "@ + division.spec_name() + " Day "@
            + decimal_text(reload.resolved_day as nat);
        assert(base + e =~= base);
        assert(s@ =~= reload.status(id, division));
    }
    s
}

/// The reload after the tournament information came, or failed to come.
fn info_outcome(
    reload: Reload,
    id: TournamentId,
    changed: bool,
    info: &Option<Basho>,
    today: Date,
) -> (next: Reload)
    ensures
        next == reload.after_info(id, changed, *info, today),
        1 <= reload.resolved_day <= reload.max_day ==> 1 <= next.resolved_day <= next.max_day,
        next.max_day == reload.max_day,
{
    match info {
        Some(basho) => {
            let (future, finished) = timing_of_info(basho, id, today);
            let day: u8 = if future {
                if changed {
                    1
                } else {
                    reload.resolved_day
                }
            } else if changed && finished {
                reload.max_day
            } else {
                reload.resolved_day
            };
            let stage = if future {
                ReloadStage::Rankings
            } else {
                ReloadStage::Bouts
            };
            Reload { future, finished, resolved_day: day, stage, ..reload }
        },
        None => Reload { info_failed: true, stage: ReloadStage::Bouts, ..reload },
    }
}

impl App {
    /// Takes the request for a reload, if there is one: the status line is
    /// blanked and the overlay says what is loaded.
    pub fn take_reload_request(&mut self) -> (wanted: bool)
        ensures
            wanted == old(self)@.needs_reload,
            final(self)@ == old(self)@.reload_taken(),
    {
        if !self.needs_reload {
            return false;
        }
        self.needs_reload = false;
        self.status_message = None;
        let mut overlay = String::from_str("Reloading data for ");
        overlay.append(self.basho_id.to_string().as_str());
        overlay.append(" ");
        overlay.append(self.division.name());
        overlay.append("...");
        self.loading_overlay = Some(overlay);
        true
    }

    /// Starts a reload for the day that the session is on. The bouts are
    /// forgotten at once, so that none of another day are shown meanwhile.
    pub fn begin_reload(&mut self) -> (reload: Reload)
        ensures
            reload == Reload::start(old(self)@.day, old(self)@.division),
            final(self)@ == (AppState { torikumi: None, ..old(self)@ }),
            1 <= reload.resolved_day <= reload.max_day,
            reload.max_day == old(self)@.division.spec_match_length(),
            old(self)@.day > reload.max_day ==> reload.resolved_day == reload.max_day,
            old(self)@.day < 1 ==> reload.resolved_day == 1,
            reload.spec_next_action() == ReloadAction::FetchInfo,
    {
        let max_day = self.division.match_length();
        let resolved_day = clamp_day(self.day, max_day);
        self.clear_torikumi();
        Reload {
            requested_day: self.day,
            max_day,
            resolved_day,
            future: false,
            finished: false,
            info_failed: false,
            bouts_failed: false,
            rankings_failed: false,
            stage: ReloadStage::Info,
        }
    }

    /// Takes the tournament information, or its failure to come.
    fn reload_info(&mut self, reload: Reload, info: Option<Basho>, today: Date) -> (next: Reload)
        ensures
            next == reload.after_info(old(self)@.basho_id, old(self)@.basho_changed, info, today),
            final(self)@ == old(self)@.after_info(reload, info, today),
            1 <= reload.resolved_day <= reload.max_day ==> 1 <= next.resolved_day <= next.max_day,
            next.max_day == reload.max_day,
    {
        let next = info_outcome(reload, self.basho_id, self.basho_changed, &info, today);
        self.store_info(next, info);
        next
    }

    /// Stores the tournament information, where it came, and the day and the
    /// bouts that the reload `next` asks for.
    fn store_info(&mut self, next: Reload, info: Option<Basho>)
        ensures
            final(self)@ == old(self)@.with_info(next, info),
    {
        if let Some(basho) = info {
            self.basho = Some(basho);
        }
        self.day = next.resolved_day;
        if next.future {
            self.torikumi = Some(Vec::new());
        }
    }

    /// Takes the bouts of the day, or their failure to come.
    fn reload_bouts(&mut self, answer: Option<TorikumiResponse>)
        ensures
            final(self)@ == old(self)@.after_bouts(answer),
    {
        let bouts = match answer {
            Some(a) => match a.torikumi {
                Some(bouts) => bouts,
                None => Vec::new(),
            },
            None => Vec::new(),
        };
        self.torikumi = Some(bouts);
    }

    /// Takes the ranking list, or its failure to come.
    fn reload_rankings(&mut self, answer: Option<BanzukeResponse>)
        ensures
            final(self)@ == old(self)@.after_rankings(answer),
    {
        if let Some(a) = answer {
            let list = merge_banzuke(a.east, a.west);
            self.set_banzuke(list);
        }
        self.basho_changed = false;
    }

    /// Takes one answer of the data service for a reload under way and says
    /// what is to be done next.
    pub fn reload_step(&mut self, reload: &mut Reload, event: ReloadEvent) -> (action: ReloadAction)
        ensures
            *final(reload) == old(reload).after_event(old(self)@, event),
            final(self)@ == old(self)@.after_reload_event(*old(reload), event),
            action == final(reload).spec_next_action(),
            1 <= old(reload).resolved_day <= old(reload).max_day ==> 1 <= final(reload).resolved_day
                <= final(reload).max_day,
            final(reload).max_day == old(reload).max_day,
    {
        let before: Reload = *reload;
        let next: Reload = match event {
            ReloadEvent::Info(info, today) => {
                if before.stage == ReloadStage::Info {
                    self.reload_info(before, info, today)
                } else {
                    before
                }
            },
            ReloadEvent::Bouts(answer) => {
                if before.stage == ReloadStage::Bouts {
                    let failed = answer.is_none();
                    self.reload_bouts(answer);
                    Reload { bouts_failed: failed, stage: ReloadStage::Rankings, ..before }
                } else {
                    before
                }
            },
            ReloadEvent::Rankings(answer) => {
                if before.stage == ReloadStage::Rankings {
                    let failed = answer.is_none();
                    self.reload_rankings(answer);
                    Reload { rankings_failed: failed, stage: ReloadStage::Done, ..before }
                } else {
                    before
                }
            },
        };
        *reload = next;
        next.next_action()
    }

    /// Ends a reload: the status line tells how it went, and the overlay goes.
    pub fn end_reload(&mut self, reload: &Reload)
        ensures
            final(self)@ == (AppState {
                status_message: Some(reload.status(old(self)@.basho_id, old(self)@.division)),
                loading_overlay: None,
                ..old(self)@
            }),
    {
        let status = reload_status(reload, self.basho_id, self.division);
        self.status_message = Some(status);
        self.loading_overlay = None;
    }
}

} // verus!
