//! Card configuration.

use vstd::prelude::*;

verus! {

/// The configuration a card is initialized with.
#[derive(Debug)]
pub struct CardConfig {
    /// Board number.
    pub board_id: u16,
    /// Number of axes.
    pub axis_count: usize,
    /// Path of a configuration file, if any.
    pub config_path: Option<String>,
    /// Communication timeout in milliseconds.
    pub timeout_ms: u64,
    /// Whether debug logging is on.
    pub debug: bool,
}

/// A configuration as plain values.
pub struct CardConfigView {
    pub board_id: u16,
    pub axis_count: usize,
    pub config_path: Option<Seq<char>>,
    pub timeout_ms: u64,
    pub debug: bool,
}

impl View for CardConfig {
    type V = CardConfigView;

    open spec fn view(&self) -> CardConfigView {
        CardConfigView {
            board_id: self.board_id,
            axis_count: self.axis_count,
            config_path: match self.config_path {
                Some(p) => Some(p@),
                None => None,
            },
            timeout_ms: self.timeout_ms,
            debug: self.debug,
        }
    }
}

/// The default configuration: board 0, four axes, no configuration file,
/// a timeout of 5000 ms and debug logging off.
pub open spec fn default_config() -> CardConfigView {
    CardConfigView {
        board_id: 0,
        axis_count: 4,
        config_path: None,
        timeout_ms: 5000,
        debug: false,
    }
}

/// Each builder sets its own field and keeps the others, so builders of
/// different fields can be applied in either order.
pub proof fn law_builders_commute(c: CardConfigView, count: usize, id: u16, ms: u64, debug: bool)
    ensures
        (CardConfigView { axis_count: count, ..(CardConfigView { board_id: id, ..c }) })
            == (CardConfigView { board_id: id, ..(CardConfigView { axis_count: count, ..c }) }),
        (CardConfigView { timeout_ms: ms, ..(CardConfigView { debug: debug, ..c }) })
            == (CardConfigView { debug: debug, ..(CardConfigView { timeout_ms: ms, ..c }) }),
        (CardConfigView { axis_count: count, ..(CardConfigView { timeout_ms: ms, ..c }) })
            == (CardConfigView { timeout_ms: ms, ..(CardConfigView { axis_count: count, ..c }) }),
{
}

impl Clone for CardConfig {
    fn clone(&self) -> (r: Self)
        ensures
            r@ == self@,
    {
        let config_path = match &self.config_path {
            Some(p) => Some(p.clone()),
            None => None,
        };
        CardConfig {
            board_id: self.board_id,
            axis_count: self.axis_count,
            config_path,
            timeout_ms: self.timeout_ms,
            debug: self.debug,
        }
    }
}

impl Default for CardConfig {
    fn default() -> (r: Self)
        ensures
            r@ == default_config(),
    {
        CardConfig { board_id: 0, axis_count: 4, config_path: None, timeout_ms: 5000, debug: false }
    }
}

impl CardConfig {
    /// The default configuration.
    pub fn new() -> (r: Self)
        ensures
            r@ == default_config(),
    {
        Self::default()
    }

    /// The same configuration with `count` axes.
    pub fn with_axis_count(self, count: usize) -> (r: Self)
        ensures
            r@ == (CardConfigView { axis_count: count, ..self@ }),
    {
        let mut this = self;
        this.axis_count = count;
        this
    }

    /// The same configuration on board `id`.
    pub fn with_board_id(self, id: u16) -> (r: Self)
        ensures
            r@ == (CardConfigView { board_id: id, ..self@ }),
    {
        let mut this = self;
        this.board_id = id;
        this
    }

    /// The same configuration with a timeout of `ms` milliseconds.
    pub fn with_timeout(self, ms: u64) -> (r: Self)
        ensures
            r@ == (CardConfigView { timeout_ms: ms, ..self@ }),
    {
        let mut this = self;
        this.timeout_ms = ms;
        this
    }

    /// The same configuration with debug logging set to `debug`.
    pub fn with_debug(self, debug: bool) -> (r: Self)
        ensures
            r@ == (CardConfigView { debug: debug, ..self@ }),
    {
        let mut this = self;
        this.debug = debug;
        this
    }
}

} // verus!
