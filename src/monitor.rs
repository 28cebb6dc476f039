use vstd::prelude::*;

verus! {

/// Progress events a run sends to an observer. They change nothing in the run.
pub enum UiEvent {
    /// A log line, from standard output or from standard error.
    Log { line: String, is_error: bool },
    /// A command has started.
    CommandStart { command: String },
    /// A command has ended with this exit code.
    CommandEnd { status: i32 },
}

/// A log line, marked when it reports an error.
pub struct LogLine {
    pub content: String,
    pub is_error: bool,
}

/// What a progress display shows: the script, its log with a scroll position,
/// and the command in progress.
pub struct App {
    pub title: String,
    pub description: Option<String>,
    pub logs: Vec<LogLine>,
    /// The first log line shown.
    pub scroll: u16,
    /// How many log lines fit on screen.
    pub view_height: u16,
    /// The view follows the end of the log.
    pub auto_scroll: bool,
    pub active_command: Option<String>,
    pub exit_status: Option<i32>,
    pub should_quit: bool,
}

/// `n - k`, or 0 when `k` is larger.
pub open spec fn minus_or_zero(n: int, k: int) -> int {
    if n > k {
        n - k
    } else {
        0
    }
}

/// How far one page moves: the view height, at least one line.
pub open spec fn page_step(view_height: u16) -> int {
    if view_height > 0 {
        view_height as int
    } else {
        1
    }
}

/// The script, the command in progress, its exit code and the quit request
/// are the same in both.
pub open spec fn same_status(a: App, b: App) -> bool {
    &&& a.title == b.title
    &&& a.description == b.description
    &&& a.active_command == b.active_command
    &&& a.exit_status == b.exit_status
    &&& a.should_quit == b.should_quit
}

impl App {
    /// A display for a script, following the end of an empty log.
    pub fn new(title: String, description: Option<String>) -> (r: App)
        ensures
            r.title == title,
            r.description == description,
            r.logs@.len() == 0,
            r.scroll == 0,
            r.view_height == 0,
            r.auto_scroll,
            r.active_command is None,
            r.exit_status is None,
            !r.should_quit,
    {
        App {
            title,
            description,
            logs: Vec::new(),
            scroll: 0,
            view_height: 0,
            auto_scroll: true,
            active_command: None,
            exit_status: None,
            should_quit: false,
        }
    }

    /// Appends a line to the log.
    pub fn push_log(&mut self, line: String, is_error: bool)
        ensures
            final(self).logs@ == old(self).logs@.push(LogLine { content: line, is_error }),
            final(self).scroll == old(self).scroll,
            final(self).auto_scroll == old(self).auto_scroll,
            final(self).view_height == old(self).view_height,
            final(self).active_command == old(self).active_command,
            final(self).exit_status == old(self).exit_status,
            final(self).should_quit == old(self).should_quit,
            final(self).title == old(self).title,
            final(self).description == old(self).description,
    {
        self.logs.push(LogLine { content: line, is_error });
    }

    /// Moves up one line, and stops following the end of the log.
    pub fn scroll_up(&mut self)
        ensures
            old(self).scroll > 0 ==> final(self).scroll == old(self).scroll - 1
                && !final(self).auto_scroll,
            old(self).scroll == 0 ==> final(self).scroll == 0 && final(self).auto_scroll
                == old(self).auto_scroll,
            final(self).logs == old(self).logs,
            final(self).view_height == old(self).view_height,
            same_status(*old(self), *final(self)),
    {
        if self.scroll > 0 {
            self.scroll = self.scroll - 1;
            self.auto_scroll = false;
        }
    }

    /// Moves down one line while one is left; at the last line, follows the
    /// end of the log again.
    pub fn scroll_down(&mut self)
        ensures
            ({
                let more = (old(self).scroll as int) < minus_or_zero(old(self).logs@.len() as int, 1)
                    && old(self).scroll < u16::MAX;
                &&& more ==> final(self).scroll == old(self).scroll + 1 && final(self).auto_scroll
                    == old(self).auto_scroll
                &&& !more ==> final(self).scroll == old(self).scroll && final(self).auto_scroll
            }),
            final(self).logs == old(self).logs,
            final(self).view_height == old(self).view_height,
            same_status(*old(self), *final(self)),
    {
        if (self.scroll as usize) < self.logs.len().saturating_sub(1) && self.scroll < u16::MAX {
            self.scroll = self.scroll + 1;
        } else {
            self.auto_scroll = true;
        }
    }

    /// Moves up one page, and stops following the end of the log.
    pub fn scroll_page_up(&mut self)
        ensures
            final(self).scroll as int == minus_or_zero(
                old(self).scroll as int,
                page_step(old(self).view_height),
            ),
            !final(self).auto_scroll,
            final(self).logs == old(self).logs,
            final(self).view_height == old(self).view_height,
            same_status(*old(self), *final(self)),
    {
        let step = if self.view_height > 0 {
            self.view_height
        } else {
            1
        };
        self.scroll = self.scroll.saturating_sub(step);
        self.auto_scroll = false;
    }

    /// Moves down one page, no further than the last full page.
    pub fn scroll_page_down(&mut self)
        ensures
            ({
                let last = minus_or_zero(old(self).logs@.len() as int, old(self).view_height as int);
                let wanted = old(self).scroll as int + page_step(old(self).view_height);
                final(self).scroll == (if wanted < last {
                    wanted
                } else {
                    last
                }) as u16
            }),
            final(self).auto_scroll == old(self).auto_scroll,
            final(self).logs == old(self).logs,
            final(self).view_height == old(self).view_height,
            same_status(*old(self), *final(self)),
    {
        let step: usize = if self.view_height > 0 {
            self.view_height as usize
        } else {
            1
        };
        let last = self.logs.len().saturating_sub(self.view_height as usize);
        let wanted = self.scroll as usize + step;
        let target = if wanted < last {
            wanted
        } else {
            last
        };
        self.scroll = target as u16;
    }

    /// Sets how many lines fit on screen; when following the end of the log,
    /// scrolls to the last full page.
    pub fn fit(&mut self, view_height: u16)
        ensures
            final(self).view_height == view_height,
            final(self).auto_scroll == old(self).auto_scroll,
            old(self).auto_scroll ==> final(self).scroll == minus_or_zero(
                old(self).logs@.len() as int,
                view_height as int,
            ) as u16,
            !old(self).auto_scroll ==> final(self).scroll == old(self).scroll,
            final(self).logs == old(self).logs,
            same_status(*old(self), *final(self)),
    {
        self.view_height = view_height;
        if self.auto_scroll {
            self.scroll = self.logs.len().saturating_sub(view_height as usize) as u16;
        }
    }

    /// Takes in a progress event.
    pub fn apply(&mut self, event: UiEvent)
        ensures
            match event {
                UiEvent::Log { line, is_error } => final(self).logs@ == old(self).logs@.push(
                    LogLine { content: line, is_error },
                ) && final(self).active_command == old(self).active_command
                    && final(self).exit_status == old(self).exit_status,
                UiEvent::CommandStart { command } => final(self).active_command == Some(command)
                    && final(self).logs == old(self).logs && final(self).exit_status == old(
                    self,
                ).exit_status,
                UiEvent::CommandEnd { status } => final(self).exit_status == Some(status)
                    && final(self).active_command is None && final(self).logs == old(self).logs,
            },
            final(self).scroll == old(self).scroll,
            final(self).auto_scroll == old(self).auto_scroll,
            final(self).should_quit == old(self).should_quit,
            final(self).view_height == old(self).view_height,
            final(self).title == old(self).title,
            final(self).description == old(self).description,
    {
        match event {
            UiEvent::Log { line, is_error } => self.push_log(line, is_error),
            UiEvent::CommandStart { command } => {
                self.active_command = Some(command);
            },
            UiEvent::CommandEnd { status } => {
                self.exit_status = Some(status);
                self.active_command = None;
            },
        }
    }
}

} // verus!
