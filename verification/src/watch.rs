//! The change detector and the run-mode selection.
//!
//! A [`FileWatched`] pairs a resolved file task with the modification
//! timestamp it was last processed at. Reprocessing is due on the first
//! observation and whenever a freshly observed timestamp differs from the
//! stored one — any change counts, not only a newer time. The stored value
//! is always the timestamp that was observed, never the time of completion.

use vstd::prelude::*;

use crate::config::FileWatch;
use crate::text::str_eq;

verus! {

/// Batch mode performs one full pass and stops; watch mode polls forever.
#[derive(Debug, Clone, Copy, PartialEq, Eq, Structural)]
pub enum Mode {
    Compile,
    Watch,
}

/// The words accepted for batch mode.
pub open spec fn is_compile_word(s: Seq<char>) -> bool {
    ||| s == "C"@
    ||| s == "c"@
    ||| s == "-c"@
    ||| s == "-C"@
    ||| s == "--compile"@
    ||| s == "--Compile"@
    ||| s == "-compile"@
    ||| s == "-Compile"@
    ||| s == "--C"@
    ||| s == "--c"@
    ||| s == "compile"@
    ||| s == "Compile"@
}

/// The words accepted for watch mode.
pub open spec fn is_watch_word(s: Seq<char>) -> bool {
    ||| s == "W"@
    ||| s == "w"@
    ||| s == "-w"@
    ||| s == "-W"@
    ||| s == "--watch"@
    ||| s == "--Watch"@
    ||| s == "-watch"@
    ||| s == "-Watch"@
    ||| s == "--W"@
    ||| s == "--w"@
    ||| s == "watch"@
    ||| s == "Watch"@
}

impl Mode {
    /// Reads a mode word; batch-mode words are checked first.
    pub fn from_str(s: &str) -> (r: Result<Mode, ()>)
        ensures
            match r {
                Ok(Mode::Compile) => is_compile_word(s@),
                Ok(Mode::Watch) => !is_compile_word(s@) && is_watch_word(s@),
                Err(_) => !is_compile_word(s@) && !is_watch_word(s@),
            },
    {
        if str_eq(s, "C") || str_eq(s, "c") || str_eq(s, "-c") || str_eq(s, "-C") || str_eq(
            s,
            "--compile",
        ) || str_eq(s, "--Compile") || str_eq(s, "-compile") || str_eq(s, "-Compile") || str_eq(
            s,
            "--C",
        ) || str_eq(s, "--c") || str_eq(s, "compile") || str_eq(s, "Compile") {
            Ok(Mode::Compile)
        } else if str_eq(s, "W") || str_eq(s, "w") || str_eq(s, "-w") || str_eq(s, "-W") || str_eq(
            s,
            "--watch",
        ) || str_eq(s, "--Watch") || str_eq(s, "-watch") || str_eq(s, "-Watch") || str_eq(s, "--W")
            || str_eq(s, "--w") || str_eq(s, "watch") || str_eq(s, "Watch") {
            Ok(Mode::Watch)
        } else {
            Err(())
        }
    }
}

/// The character sequences of a list of arguments.
pub open spec fn args_view(args: Seq<String>) -> Seq<Seq<char>> {
    args.map_values(|s: String| s@)
}

/// The mode the argument list selects: the first argument that is a
/// compile-flag or watch-flag variant wins; no such word leaves the choice
/// open.
pub open spec fn mode_of_args(args: Seq<Seq<char>>) -> Option<Mode>
    decreases args.len(),
{
    if args.len() == 0 {
        None
    } else if is_compile_word(args[0]) {
        Some(Mode::Compile)
    } else if is_watch_word(args[0]) {
        Some(Mode::Watch)
    } else {
        mode_of_args(args.drop_first())
    }
}

/// Scans the command-line arguments for a mode word.
pub fn mode_from_args(args: &Vec<String>) -> (r: Option<Mode>)
    ensures
        r == mode_of_args(args_view(args@)),
{
    let n = args.len();
    let mut i: usize = 0;
    proof {
        assert(args_view(args@).skip(0) =~= args_view(args@));
    }
    while i < n
        invariant
            i <= n,
            n == args@.len(),
            mode_of_args(args_view(args@)) == mode_of_args(args_view(args@).skip(i as int)),
        decreases n - i,
    {
        proof {
            assert(args_view(args@).skip(i as int)[0] == args@[i as int]@);
            assert(args_view(args@).skip(i as int).drop_first() =~= args_view(args@).skip(
                i as int + 1,
            ));
        }
        let a = &args[i];
        if let Ok(m) = Mode::from_str(a.as_str()) {
            return Some(m);
        }
        i = i + 1;
    }
    proof {
        assert(args_view(args@).skip(n as int) =~= Seq::<Seq<char>>::empty());
    }
    None
}

/// Whether another pass follows a completed one: batch mode stops after its
/// single pass, watch mode never stops on its own.
pub fn continues_after_pass(mode: &Mode) -> (r: bool)
    ensures
        r == (*mode is Watch),
{
    match mode {
        Mode::Watch => true,
        Mode::Compile => false,
    }
}

/// A watched file with the modification timestamp it was last processed at;
/// `None` until first processed.
#[derive(Debug, Clone, PartialEq)]
pub struct FileWatched {
    pub file: FileWatch,
    pub time: Option<u64>,
}

/// The run decisions a sequence of timestamp observations produces, starting
/// from a last-seen value of `prev`.
pub open spec fn run_trace_from(prev: Option<u64>, obs: Seq<u64>) -> Seq<bool>
    decreases obs.len(),
{
    if obs.len() == 0 {
        Seq::empty()
    } else {
        seq![prev != Some(obs[0])] + run_trace_from(Some(obs[0]), obs.drop_first())
    }
}

impl FileWatched {
    /// Wraps a fresh task that has never been processed.
    pub fn new(file: FileWatch) -> (r: FileWatched)
        ensures
            r.file == file,
            r.time is None,
    {
        FileWatched { file, time: None }
    }

    /// Records one observed modification timestamp and decides whether the
    /// file must be reprocessed: on first observation, or whenever the
    /// timestamp differs from the stored one.
    pub fn observe(&mut self, modified: u64) -> (run: bool)
        ensures
            final(self).file == old(self).file,
            final(self).time == Some(modified),
            run == (old(self).time != Some(modified)),
    {
        let run = match self.time {
            Some(last) => last != modified,
            None => true,
        };
        self.time = Some(modified);
        run
    }

    /// Feeds a whole series of observations through the detector and
    /// returns each run decision.
    pub fn observe_series(&mut self, times: &Vec<u64>) -> (runs: Vec<bool>)
        ensures
            runs@ == run_trace_from(old(self).time, times@),
            final(self).file == old(self).file,
            final(self).time == if times@.len() == 0 {
                old(self).time
            } else {
                Some(times@[times@.len() - 1])
            },
    {
        let n = times.len();
        let mut runs: Vec<bool> = Vec::new();
        let mut i: usize = 0;
        proof {
            assert(times@.skip(0) =~= times@);
        }
        while i < n
            invariant
                i <= n,
                n == times@.len(),
                self.file == old(self).file,
                self.time == if i == 0 {
                    old(self).time
                } else {
                    Some(times@[i - 1])
                },
                runs@.len() == i,
                run_trace_from(old(self).time, times@) == runs@ + run_trace_from(
                    self.time,
                    times@.skip(i as int),
                ),
            decreases n - i,
        {
            proof {
                assert(times@.skip(i as int)[0] == times@[i as int]);
                assert(times@.skip(i as int).drop_first() =~= times@.skip(i as int + 1));
            }
            let ghost prev_runs = runs@;
            let ghost prev_time = self.time;
            let run = self.observe(times[i]);
            runs.push(run);
            proof {
                assert(prev_runs + (seq![run] + run_trace_from(self.time, times@.skip(i as int + 1)))
                    =~= runs@ + run_trace_from(self.time, times@.skip(i as int + 1)));
            }
            i = i + 1;
        }
        proof {
            assert(times@.skip(n as int) =~= Seq::<u64>::empty());
            assert(runs@ + Seq::<bool>::empty() =~= runs@);
        }
        runs
    }
}

/// A series of observations yields exactly one decision per observation.
pub proof fn lemma_run_trace_len(prev: Option<u64>, obs: Seq<u64>)
    ensures
        run_trace_from(prev, obs).len() == obs.len(),
    decreases obs.len(),
{
    if obs.len() > 0 {
        lemma_run_trace_len(Some(obs[0]), obs.drop_first());
    }
}

/// Law: starting from `prev`, the decision at step `i` depends only on the
/// step before it — the first observation compares against `prev`, every
/// later one against the immediately preceding observation.
pub proof fn lemma_change_detection(prev: Option<u64>, obs: Seq<u64>, i: int)
    requires
        0 <= i < obs.len(),
    ensures
        run_trace_from(prev, obs)[i] == if i == 0 {
            prev != Some(obs[0])
        } else {
            obs[i] != obs[i - 1]
        },
    decreases i,
{
    if i == 0 {
        assert(run_trace_from(prev, obs)[0] == (seq![prev != Some(obs[0])] + run_trace_from(
            Some(obs[0]),
            obs.drop_first(),
        ))[0]);
    } else {
        lemma_change_detection(Some(obs[0]), obs.drop_first(), i - 1);
        lemma_run_trace_len(Some(obs[0]), obs.drop_first());
        assert(run_trace_from(prev, obs) == seq![prev != Some(obs[0])] + run_trace_from(
            Some(obs[0]),
            obs.drop_first(),
        ));
        assert(run_trace_from(prev, obs)[i] == run_trace_from(Some(obs[0]), obs.drop_first())[i
            - 1]);
        assert(obs.drop_first()[i - 1] == obs[i]);
        if i > 1 {
            assert(obs.drop_first()[i - 2] == obs[i - 1]);
        }
    }
}

/// Law: for a file never processed before, reprocessing is due exactly on
/// the first observation and whenever an observation differs from the one
/// immediately before it.
pub proof fn lemma_change_detection_from_start(obs: Seq<u64>, i: int)
    requires
        0 <= i < obs.len(),
    ensures
        run_trace_from(None, obs)[i] == (i == 0 || obs[i] != obs[i - 1]),
{
    lemma_change_detection(None, obs, i);
}

} // verus!
