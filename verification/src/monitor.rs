//! The journal of what the engine reports: trades done, errors, warnings.
//! Entries are kept in the order in which they were reported until the
//! caller takes them out.

use vstd::prelude::*;
use crate::config::Config;
use crate::decimal::Decimal;
use crate::text::copy_text;

verus! {

/// One entry of the journal.
#[derive(Debug)]
pub enum MonitorEvent {
    /// An arbitrage was carried out.
    Arbitrage { from_dex: String, to_dex: String, profit_percent: Decimal, simulation_mode: bool },
    /// Something failed.
    Error { message: String },
    /// Something deserves attention.
    Warning { message: String },
}

/// One entry of the journal, as a mathematical value.
pub enum MonitorEventView {
    Arbitrage { from_dex: Seq<char>, to_dex: Seq<char>, profit_percent: Decimal, simulation_mode: bool },
    Error { message: Seq<char> },
    Warning { message: Seq<char> },
}

impl View for MonitorEvent {
    type V = MonitorEventView;

    open spec fn view(&self) -> MonitorEventView {
        match self {
            MonitorEvent::Arbitrage { from_dex, to_dex, profit_percent, simulation_mode } => {
                MonitorEventView::Arbitrage {
                    from_dex: from_dex@,
                    to_dex: to_dex@,
                    profit_percent: *profit_percent,
                    simulation_mode: *simulation_mode,
                }
            },
            MonitorEvent::Error { message } => MonitorEventView::Error { message: message@ },
            MonitorEvent::Warning { message } => MonitorEventView::Warning { message: message@ },
        }
    }
}

/// The entries of a list, each as a mathematical value.
pub open spec fn event_views(list: Seq<MonitorEvent>) -> Seq<MonitorEventView> {
    list.map_values(|e: MonitorEvent| e@)
}

/// The journal.
#[derive(Debug)]
pub struct Monitor {
    events: Vec<MonitorEvent>,
}

impl Monitor {
    /// The entries not yet taken out, oldest first.
    pub closed spec fn journal(&self) -> Seq<MonitorEventView> {
        event_views(self.events@)
    }

    /// An empty journal.
    pub fn new(config: &Config) -> (r: Monitor)
        ensures
            r.journal() == Seq::<MonitorEventView>::empty(),
    {
        let r = Monitor { events: Vec::new() };
        proof {
            assert(event_views(r.events@) =~= Seq::<MonitorEventView>::empty());
        }
        r
    }

    /// Reports an arbitrage that was carried out.
    pub fn log_arbitrage(&mut self, from_dex: &str, to_dex: &str, profit_percent: Decimal, simulation_mode: bool)
        ensures
            final(self).journal() == old(self).journal().push(
                MonitorEventView::Arbitrage {
                    from_dex: from_dex@,
                    to_dex: to_dex@,
                    profit_percent,
                    simulation_mode,
                },
            ),
    {
        let event = MonitorEvent::Arbitrage {
            from_dex: copy_text(from_dex),
            to_dex: copy_text(to_dex),
            profit_percent,
            simulation_mode,
        };
        proof {
            assert(event_views(self.events@.push(event)) =~= event_views(self.events@).push(event@));
        }
        self.events.push(event);
    }

    /// Reports an error.
    pub fn log_error(&mut self, error: &str)
        ensures
            final(self).journal() == old(self).journal().push(MonitorEventView::Error { message: error@ }),
    {
        let event = MonitorEvent::Error { message: copy_text(error) };
        proof {
            assert(event_views(self.events@.push(event)) =~= event_views(self.events@).push(event@));
        }
        self.events.push(event);
    }

    /// Reports a warning.
    pub fn log_warning(&mut self, warning: &str)
        ensures
            final(self).journal() == old(self).journal().push(
                MonitorEventView::Warning { message: warning@ },
            ),
    {
        let event = MonitorEvent::Warning { message: copy_text(warning) };
        proof {
            assert(event_views(self.events@.push(event)) =~= event_views(self.events@).push(event@));
        }
        self.events.push(event);
    }

    /// Takes every entry out of the journal, oldest first.
    pub fn take_events(&mut self) -> (r: Vec<MonitorEvent>)
        ensures
            event_views(r@) == old(self).journal(),
            final(self).journal() == Seq::<MonitorEventView>::empty(),
    {
        let mut out: Vec<MonitorEvent> = Vec::new();
        std::mem::swap(&mut self.events, &mut out);
        proof {
            assert(event_views(self.events@) =~= Seq::<MonitorEventView>::empty());
        }
        out
    }
}

} // verus!
