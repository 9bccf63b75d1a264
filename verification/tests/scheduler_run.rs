use livedraw::{
    ArtAction, ArtIncrement, Command, Input, LivedrawArt, LivedrawArtSimulation,
    PenTravelMetadata, Phase, PlotUpdateAction, Scheduler,
};

/// A scripted generator: draws `vec![index]` for every index below
/// `end_at` that is not listed in `skips`, skips the listed ones, and
/// ends at `end_at`. Records every index the scheduler asked it to draw.
#[derive(Clone)]
struct ScriptArt {
    end_at: usize,
    skips: Vec<usize>,
    pause0_ms: Option<u64>,
    chat_at: Option<usize>,
    delay_ms: u64,
    calls: Vec<usize>,
}

impl ScriptArt {
    fn new(end_at: usize, delay_ms: u64) -> ScriptArt {
        ScriptArt {
            end_at,
            skips: Vec::new(),
            pause0_ms: None,
            chat_at: None,
            delay_ms,
            calls: Vec::new(),
        }
    }
}

impl LivedrawArt for ScriptArt {
    type Group = u32;

    fn draw_increment(&mut self, _input: &Input, index: usize) -> ArtIncrement<u32> {
        self.calls.push(index);
        if index >= self.end_at {
            ArtIncrement::End
        } else if self.skips.contains(&index) {
            ArtIncrement::Continue
        } else {
            ArtIncrement::SVG(vec![index as u32])
        }
    }

    fn estimate_total_increments(&self) -> usize {
        self.end_at
    }

    fn actions_before_increment(&self, index: usize) -> Vec<ArtAction> {
        let mut actions = Vec::new();
        if index == 0 {
            if let Some(ms) = self.pause0_ms {
                actions.push(ArtAction::Pause(String::from("Get ready"), ms));
            }
        }
        if self.chat_at == Some(index) {
            actions.push(ArtAction::ChatMessage(String::from("hello")));
        }
        actions
    }

    fn get_predictive_max_next_increments(&self) -> Option<usize> {
        Some(0)
    }

    fn delay_between_increments(&self) -> u64 {
        self.delay_ms
    }
}

impl LivedrawArtSimulation for ScriptArt {
    fn simulate_input(&mut self, index: usize) -> Input {
        Input::new(format!("sim-{}", index))
    }
}

#[derive(Default)]
struct RunLog {
    events: Vec<String>,
    publish_times: Vec<u64>,
    publish_groups: Vec<Vec<u32>>,
    publish_meta: Vec<Option<Vec<(String, String)>>>,
    home_meta: Vec<Vec<(String, String)>>,
    previews: usize,
    resets: usize,
}

fn record_event(log: &mut RunLog, a: &PlotUpdateAction) {
    let tag = match a {
        PlotUpdateAction::PlotArtCountdownPause(text, ms) => format!("pause {} {}", text, ms),
        PlotUpdateAction::PlotArtChatMessage(text) => format!("chat {}", text),
        PlotUpdateAction::PlotArtStart => String::from("art-start"),
        PlotUpdateAction::PlotArtStop => String::from("art-stop"),
        PlotUpdateAction::PlotIncrPrepare(i, t) => format!("incr-prepare {} {}", i, t),
        PlotUpdateAction::PlotIncrStart(i) => format!("incr-start {}", i),
        PlotUpdateAction::PlotIncrEnd(i) => format!("incr-end {}", i),
        PlotUpdateAction::PlotPredictiveWritten => String::from("predictive"),
    };
    log.events.push(tag);
}

/// Executes the command protocol as the driver would: performs each
/// command in order, answering every question from the given script.
/// `inputs[k]` is the text of the k-th poll (the last entry repeats);
/// each published artifact stays on disk for `consumption_ticks` checks;
/// `give_meta` says whether a finished artifact with metadata exists when
/// the scheduler asks.
fn drive(
    mut s: Scheduler<ScriptArt>,
    inputs: &[&str],
    consumption_ticks: usize,
    give_meta: bool,
    log: &mut RunLog,
) -> Scheduler<ScriptArt> {
    let mut now: u64 = 0;
    let mut poll: usize = 0;
    let mut ticks_left = consumption_ticks;
    let mut queue = s.start();
    let mut guard: usize = 0;
    loop {
        guard += 1;
        assert!(guard < 100_000, "driver did not finish");
        if queue.is_empty() {
            break;
        }
        let mut next: Option<Vec<Command<u32>>> = None;
        for cmd in queue {
            match cmd {
                Command::ResetStore => log.resets += 1,
                Command::Emit(a) => record_event(log, &a),
                Command::WritePredictive(_groups) => log.previews += 1,
                Command::Publish { groups, plotdata } => {
                    log.publish_times.push(now);
                    log.publish_groups.push(groups);
                    log.publish_meta.push(plotdata.map(|m| m.attrs));
                    ticks_left = consumption_ticks;
                }
                Command::Sleep(ms) => now += ms,
                Command::WriteHome(m) => log.home_meta.push(m.attrs),
                Command::FetchInput => {
                    let text = inputs[poll.min(inputs.len() - 1)];
                    poll += 1;
                    next = Some(s.on_input(Input::new(String::from(text)), now));
                }
                Command::ReadFinished => {
                    let meta = if give_meta {
                        Some(PenTravelMetadata {
                            attrs: vec![(String::from("layer"), String::from("2"))],
                        })
                    } else {
                        None
                    };
                    next = Some(s.on_finished(meta));
                }
                Command::CheckCurrent => {
                    let present = ticks_left > 0;
                    if present {
                        ticks_left -= 1;
                    }
                    next = Some(s.on_current_checked(present));
                }
                Command::CheckTime => next = Some(s.on_time(now)),
            }
        }
        match next {
            Some(q) => queue = q,
            None => break,
        }
    }
    s
}

/// Ten drawings, terminal at ten, two-second delay, no pre-actions:
/// exactly ten artifacts, each awaited and paced, one start, one stop,
/// and a home-reset artifact when leftover metadata exists.
#[test]
fn ten_increments_paced_run() {
    let art = ScriptArt::new(10, 2000);
    let mut log = RunLog::default();
    let s = drive(Scheduler::new(art), &["a"], 0, true, &mut log);

    assert_eq!(s.phase, Phase::Done);
    assert_eq!(log.resets, 1);
    assert_eq!(log.publish_times.len(), 10);
    for i in 0..10usize {
        assert_eq!(log.publish_groups[i], vec![i as u32]);
    }
    for i in 1..10usize {
        assert!(log.publish_times[i] - log.publish_times[i - 1] >= 2000);
    }
    assert_eq!(log.events.iter().filter(|e| *e == "art-start").count(), 1);
    assert_eq!(log.events.iter().filter(|e| *e == "art-stop").count(), 1);
    // the finished artifact's attributes come back reset: the driver hands
    // in layer=2 and every artifact goes out with the home values
    let reset = vec![
        (String::from("layer"), String::from("-1")),
        (String::from("pause_dist"), String::from("0")),
        (String::from("pause_ref"), String::from("0")),
    ];
    for meta in &log.publish_meta {
        assert_eq!(meta.as_ref().unwrap(), &reset);
    }
    assert_eq!(log.home_meta, vec![reset.clone()]);
    // every publication is acknowledged before the next: incr-start i and
    // incr-end i alternate strictly
    let mut expected = Vec::new();
    for i in 0..10usize {
        expected.push(format!("incr-start {}", i));
        expected.push(format!("incr-end {}", i));
    }
    let incr: Vec<&String> = log
        .events
        .iter()
        .filter(|e| e.starts_with("incr-start") || e.starts_with("incr-end"))
        .collect();
    assert_eq!(incr.len(), expected.len());
    for (got, want) in incr.iter().zip(expected.iter()) {
        assert_eq!(*got, want);
    }
    // the generator saw indices 0..=10 in order, nothing after terminal
    assert_eq!(s.art.calls, (0..=10).collect::<Vec<_>>());
}

/// Without leftover metadata no home-reset artifact is written.
#[test]
fn no_home_artifact_without_metadata() {
    let art = ScriptArt::new(2, 100);
    let mut log = RunLog::default();
    let _ = drive(Scheduler::new(art), &["a"], 0, false, &mut log);
    assert!(log.home_meta.is_empty());
    assert_eq!(log.publish_times.len(), 2);
    assert!(log.publish_meta.iter().all(|m| m.is_none()));
}

/// A pause before the first increment: the countdown event is emitted
/// immediately, generation is held for the pause, and each distinct input
/// change during the window regenerates the preview exactly once.
#[test]
fn pause_before_first_increment() {
    let mut art = ScriptArt::new(1, 500);
    art.pause0_ms = Some(10_000);
    let mut log = RunLog::default();
    // poll 0 is the initial input; polls 1 and 2 see the same value, the
    // rest see one distinct change
    let s = drive(Scheduler::new(art), &["a", "a", "a", "b"], 0, false, &mut log);

    assert_eq!(s.phase, Phase::Done);
    assert_eq!(log.events[0], "art-start");
    assert_eq!(log.events[1], "predictive");
    assert_eq!(log.events[2], "pause Get ready 10000");
    // one initial preview, and exactly one for the single distinct change
    assert_eq!(log.previews, 2);
    // generation for index 0 waited out the pause
    assert_eq!(log.publish_times.len(), 1);
    assert!(log.publish_times[0] > 10_000);
}

/// Skips advance the index without publishing and without pacing.
#[test]
fn skips_bypass_artifacts_and_delay() {
    let mut art = ScriptArt::new(5, 1000);
    art.skips = vec![1, 3];
    let mut log = RunLog::default();
    let s = drive(Scheduler::new(art), &["a"], 0, false, &mut log);

    // every index was generated exactly once, in order, terminal last
    assert_eq!(s.art.calls, vec![0, 1, 2, 3, 4, 5]);
    // only the non-skipped indices were published
    assert_eq!(log.publish_groups, vec![vec![0u32], vec![2], vec![4]]);
    let starts: Vec<&String> =
        log.events.iter().filter(|e| e.starts_with("incr-start")).collect();
    assert_eq!(starts, vec!["incr-start 0", "incr-start 2", "incr-start 4"]);
}

/// A slow consumer holds the current artifact for several checks; the
/// scheduler keeps polling and publishes nothing new until the slot is
/// acknowledged.
#[test]
fn consumption_wait_blocks_next_publication() {
    let art = ScriptArt::new(3, 100);
    let mut log = RunLog::default();
    let _ = drive(Scheduler::new(art), &["a"], 3, false, &mut log);

    assert_eq!(log.publish_times.len(), 3);
    // each artifact was held for three checks at the poll quantum
    for i in 1..3usize {
        assert!(log.publish_times[i] - log.publish_times[i - 1] >= 3 * 500);
    }
    let incr: Vec<&String> = log
        .events
        .iter()
        .filter(|e| e.starts_with("incr-start") || e.starts_with("incr-end"))
        .collect();
    assert_eq!(
        incr,
        vec!["incr-start 0", "incr-end 0", "incr-start 1", "incr-end 1", "incr-start 2",
            "incr-end 2"]
    );
}

/// The preview is rewritten exactly when the polled input differs from
/// the last observed one.
#[test]
fn preview_regenerated_only_on_change() {
    let art = ScriptArt::new(1, 4000);
    let mut log = RunLog::default();
    // initial poll "a"; the delay wait then polls "a" (no change) and
    // later "b" twice (one change)
    let _ = drive(Scheduler::new(art), &["a", "a", "a", "b", "b", "b", "b", "b", "b"], 0, false,
        &mut log);
    // one initial preview plus exactly one for the a -> b change
    assert_eq!(log.previews, 2);
}

/// A chat-message action is announced before its increment is prepared
/// and blocks nothing.
#[test]
fn chat_message_before_increment() {
    let mut art = ScriptArt::new(2, 100);
    art.chat_at = Some(1);
    let mut log = RunLog::default();
    let _ = drive(Scheduler::new(art), &["a"], 0, false, &mut log);

    let chat_pos = log.events.iter().position(|e| e == "chat hello").unwrap();
    let prepare1_pos = log.events.iter().position(|e| e == "incr-prepare 1 2").unwrap();
    assert!(chat_pos < prepare1_pos);
    assert_eq!(log.publish_times.len(), 2);
}

/// Simulation mode: the cumulative document is the in-order concatenation
/// of every drawing before the terminal; no command protocol is involved.
#[test]
fn simulation_concatenates_drawings() {
    let mut art = ScriptArt::new(5, 1000);
    art.skips = vec![1, 3];
    let (doc, _) = livedraw::livedraw_start_simulation(&mut art);
    assert_eq!(doc, vec![0u32, 2, 4]);
    assert_eq!(art.calls, vec![0, 1, 2, 3, 4, 5]);
}

/// The preview generator starts at the given index, honors the lookahead
/// cap, and never touches the authoritative generator.
#[test]
fn preview_lookahead_cap_and_isolation() {
    let art = ScriptArt::new(100, 1000);
    let input = Input::new(String::from("a"));
    let (doc, _) = livedraw::generate_svg_all(&art, &input, 2, Some(1));
    // indices 2 and 3: the cap admits one index advance past the start
    assert_eq!(doc, vec![2u32, 3]);
    // the authoritative generator was never drawn on
    assert!(art.calls.is_empty());

    // with no cap the preview runs to the terminal
    let short = ScriptArt::new(3, 1000);
    let (doc2, _) = livedraw::generate_svg_all(&short, &input, 0, None);
    assert_eq!(doc2, vec![0u32, 1, 2]);
}
