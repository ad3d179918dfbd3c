use vstd::prelude::*;

use crate::create::{
    default_settings, file_name, spec_source_candidate,
    spec_exe_name, spec_installer, spec_locale, spec_object, spec_package_name,
    spec_package_version, spec_source, Settings,
};
use crate::error::Failure;
use crate::manifest::{manifest_name, manifest_version};
use crate::run::{
    spec_accepts, spec_advance, spec_start, ActionView, ArgView, EventView, RunView, Stage,
};
use crate::wix::{
    Platform, Tool, DEFAULT_SOURCE_FILE_EXTENSION, WIX, WIX_SOURCE_FILE_NAME,
};

verus! {

/// How far a build has come: every accepted event moves it strictly further.
pub open spec fn stage_rank(s: Stage) -> int {
    match s {
        Stage::Start => 0,
        Stage::ReadingManifest => 1,
        Stage::CheckingLocale => 2,
        Stage::CheckingSource => 3,
        Stage::Building => 4,
        Stage::ReadingEnvironment(Tool::Compiler) => 5,
        Stage::CheckingTool(Tool::Compiler) => 6,
        Stage::Running(Tool::Compiler) => 7,
        Stage::ReadingEnvironment(Tool::Linker) => 8,
        Stage::CheckingTool(Tool::Linker) => 9,
        Stage::Running(Tool::Linker) => 10,
        Stage::Finished => 11,
        Stage::Failed => 12,
    }
}

/// A build only moves forward: reading the manifest, finding the localization
/// and WiX Source files, the release build, then the compiler and then the
/// linker, each found before it is run; it never goes back to an earlier stage.
pub proof fn build_moves_forward(v: RunView, e: EventView)
    requires
        spec_accepts(v.stage, e),
    ensures
        stage_rank(spec_advance(v, e).0.stage) > stage_rank(v.stage),
{
}

/// A build that is finished or failed accepts no further event.
pub proof fn ended_build_accepts_nothing(v: RunView, e: EventView)
    requires
        v.stage is Finished || v.stage is Failed,
    ensures
        !spec_accepts(v.stage, e),
{
}

/// A step never changes the build's settings or target platform; it fails
/// exactly when it asks to stop with an error, and finishes exactly when it
/// reports the installer built.
pub proof fn step_keeps_settings(v: RunView, e: EventView)
    requires
        spec_accepts(v.stage, e),
    ensures
        spec_advance(v, e).0.settings == v.settings,
        spec_advance(v, e).0.platform == v.platform,
        (spec_advance(v, e).0.stage is Failed) <==> (spec_advance(v, e).1 is Fail),
        (spec_advance(v, e).0.stage is Finished) <==> (spec_advance(v, e).1 is Finish),
{
}

/// The installer is reported built only when the linker has just run and
/// exited successfully.
pub proof fn finish_only_after_linking(v: RunView, e: EventView)
    requires
        spec_accepts(v.stage, e),
        spec_advance(v, e).1 is Finish,
    ensures
        v.stage == Stage::Running(Tool::Linker),
        e matches EventView::ToolExited { success, .. } && success,
{
}

/// With the release build skipped, no step ever asks for it.
pub proof fn skipped_build_never_runs(v: RunView, e: EventView)
    requires
        spec_accepts(v.stage, e),
        v.settings.no_build,
    ensures
        !(spec_advance(v, e).1 is Build),
{
}

/// Every application that a build runs has its output captured exactly when
/// the settings say so.
pub proof fn output_captured_as_set(v: RunView, e: EventView)
    requires
        spec_accepts(v.stage, e),
    ensures
        spec_advance(v, e).1 matches ActionView::Build(i) ==> i.capture_output
            == v.settings.capture_output,
        spec_advance(v, e).1 matches ActionView::RunTool(_, i) ==> i.capture_output
            == v.settings.capture_output,
{
}

/// What holds of every state a build reaches: it only waits for the
/// environment when no `bin` folder is set, and once the WiX Source file is
/// found it keeps the object file and the installer that follow from its
/// settings, name, version and platform.
pub open spec fn reachable_shape(v: RunView) -> bool {
    &&& v.stage is ReadingEnvironment ==> v.settings.bin_path is None
    &&& 4 <= stage_rank(v.stage) <= 11 ==> v.object == spec_object() && v.installer
        == spec_installer(v.settings, v.name, v.version, v.platform) && v.source == given_source(
        v.settings,
    )
    &&& 3 <= stage_rank(v.stage) <= 11 ==> v.locale == (match v.settings.locale {
        Some(l) => Some(seq![l]),
        None => None,
    })
}

/// The WiX Source file a build compiles once it has found it: the input set,
/// else `wix/main.rs`.
pub open spec fn given_source(s: Settings) -> Seq<Seq<char>> {
    match s.input {
        Some(i) => seq![i],
        None => seq!["wix"@, "main.rs"@],
    }
}

/// A new build has that shape, and every step keeps it.
pub proof fn shape_is_kept(settings: Settings, platform: Platform, v: RunView, e: EventView)
    requires
        reachable_shape(v),
        spec_accepts(v.stage, e),
    ensures
        reachable_shape(spec_start(settings, platform)),
        reachable_shape(spec_advance(v, e).0),
{
    lemma_default_source();
}

/// The default WiX Source file is `wix/main.rs`.
pub proof fn lemma_default_source()
    ensures
        spec_source_candidate(default_settings()) == seq!["wix"@, "main.rs"@],
        file_name(WIX_SOURCE_FILE_NAME@, DEFAULT_SOURCE_FILE_EXTENSION@) == "main.rs"@,
        WIX@ == "wix"@,
{
    reveal_strlit("main.rs");
    reveal_strlit("main");
    reveal_strlit(".");
    reveal_strlit("rs");
    assert(file_name(WIX_SOURCE_FILE_NAME@, DEFAULT_SOURCE_FILE_EXTENSION@) =~= "main.rs"@);
}

/// The object file that the compiler is told to write is `target/wix/main.wixobj`,
/// the one the linker is told to read; the linker writes the installer that the
/// settings, name, version and platform call for.
pub proof fn compiler_output_is_linker_input(v: RunView, e: EventView)
    requires
        reachable_shape(v),
        spec_accepts(v.stage, e),
    ensures
        spec_advance(v, e).1 matches ActionView::RunTool(t, i) ==> (t == Tool::Compiler ==> i.args[3]
            == ArgView::Path(spec_object())),
        spec_advance(v, e).1 matches ActionView::RunTool(t, i) ==> (t == Tool::Linker ==> (i.args[i.args.len() - 3]
            == ArgView::Path(spec_object()) && i.args[i.args.len() - 1] == ArgView::Path(
            spec_installer(v.settings, v.name, v.version, v.platform),
        ))),
{
}

/// With the WiX Toolset's `bin` folder set, the environment is never read, and
/// every WiX application is looked for and run in that folder.
pub proof fn bin_path_overrides_environment(v: RunView, e: EventView, b: Seq<char>)
    requires
        spec_accepts(v.stage, e),
        reachable_shape(v),
        v.settings.bin_path == Some(b),
    ensures
        !(spec_advance(v, e).1 is ReadEnvironment),
        spec_advance(v, e).1 matches ActionView::CheckTool(p) ==> p == seq![
            b,
            spec_exe_name(spec_advance(v, e).0.stage->CheckingTool_0),
        ],
        spec_advance(v, e).1 matches ActionView::RunTool(t, i) ==> i.program == seq![
            b,
            spec_exe_name(t),
        ],
{
}

/// The state of a build after the first `i` of `events`, from `v`.
pub open spec fn state_at(v: RunView, events: Seq<EventView>, i: nat) -> RunView
    decreases i,
{
    if i == 0 {
        v
    } else {
        spec_advance(state_at(v, events, (i - 1) as nat), events[i - 1]).0
    }
}

/// The action a build gives in answer to the event `events[i]`, from `v`.
pub open spec fn action_at(v: RunView, events: Seq<EventView>, i: nat) -> ActionView {
    spec_advance(state_at(v, events, i), events[i as int]).1
}

/// Whether every one of `events` answers the build's action before it, from `v`.
pub open spec fn accepted_run(v: RunView, events: Seq<EventView>) -> bool {
    forall|i: nat| i < events.len() ==> spec_accepts(#[trigger] state_at(v, events, i).stage, events[i as int])
}

proof fn lemma_not_ended_before_end(v: RunView, events: Seq<EventView>, i: nat)
    requires
        accepted_run(v, events),
        i < events.len(),
    ensures
        stage_rank(state_at(v, events, i).stage) <= 10,
        stage_rank(state_at(v, events, i + 1).stage) > stage_rank(state_at(v, events, i).stage),
{
    assert(spec_accepts(state_at(v, events, i).stage, events[i as int]));
    build_moves_forward(state_at(v, events, i), events[i as int]);
}

proof fn lemma_ranks_increase(v: RunView, events: Seq<EventView>, a: nat, b: nat)
    requires
        accepted_run(v, events),
        a < b <= events.len(),
    ensures
        stage_rank(state_at(v, events, a).stage) < stage_rank(state_at(v, events, b).stage),
    decreases b - a,
{
    lemma_not_ended_before_end(v, events, a);
    if a + 1 < b {
        lemma_ranks_increase(v, events, a + 1, b);
    }
}

/// Steps that start before the stage ranked `r` land at most on it, or fail.
pub open spec fn gated(v: RunView, r: int) -> bool {
    forall|e: EventView|
        #![trigger spec_advance(v, e)]
        spec_accepts(v.stage, e) && stage_rank(v.stage) < r ==> stage_rank(spec_advance(v, e).0.stage)
            <= r || spec_advance(v, e).0.stage is Failed
}

proof fn lemma_crossing(v: RunView, events: Seq<EventView>, r: int, n: nat) -> (i: nat)
    requires
        accepted_run(v, events),
        n <= events.len(),
        forall|j: nat| j < n ==> gated(#[trigger] state_at(v, events, j), r),
        stage_rank(v.stage) < r,
        r <= stage_rank(state_at(v, events, n).stage) <= 11,
    ensures
        i < n,
        stage_rank(state_at(v, events, i + 1).stage) == r,
    decreases n,
{
    if n == 0 {
        assert(false);
        0
    } else {
        let m = (n - 1) as nat;
        lemma_not_ended_before_end(v, events, m);
        if stage_rank(state_at(v, events, m).stage) >= r {
            lemma_crossing(v, events, r, m)
        } else {
            assert(gated(state_at(v, events, m), r));
            assert(spec_accepts(state_at(v, events, m).stage, events[m as int]));
            assert(state_at(v, events, n) == spec_advance(state_at(v, events, m), events[m as int]).0);
            m
        }
    }
}

proof fn lemma_gates(v: RunView, no_build: bool)
    requires
        v.settings.no_build == no_build,
    ensures
        gated(v, 7),
        gated(v, 10),
        !no_build ==> gated(v, 4),
{
}

proof fn lemma_settings_kept(v: RunView, events: Seq<EventView>, i: nat)
    requires
        accepted_run(v, events),
        i <= events.len(),
    ensures
        state_at(v, events, i).settings == v.settings,
    decreases i,
{
    if i > 0 {
        lemma_settings_kept(v, events, (i - 1) as nat);
        assert(spec_accepts(state_at(v, events, (i - 1) as nat).stage, events[i - 1]));
        step_keeps_settings(state_at(v, events, (i - 1) as nat), events[i - 1]);
    }
}

proof fn lemma_enter(v: RunView, e: EventView)
    requires
        spec_accepts(v.stage, e),
    ensures
        spec_advance(v, e).0.stage == Stage::Running(Tool::Compiler) && v.stage != Stage::Running(
            Tool::Compiler,
        ) ==> (spec_advance(v, e).1 matches ActionView::RunTool(t, _) && t == Tool::Compiler),
        spec_advance(v, e).0.stage == Stage::Running(Tool::Linker) && v.stage != Stage::Running(
            Tool::Linker,
        ) ==> (spec_advance(v, e).1 matches ActionView::RunTool(t, _) && t == Tool::Linker),
        spec_advance(v, e).0.stage == Stage::Building && v.stage != Stage::Building
            ==> spec_advance(v, e).1 is Build,
{
}

proof fn lemma_leave(v: RunView, e: EventView)
    requires
        spec_accepts(v.stage, e),
        !(spec_advance(v, e).0.stage is Failed),
    ensures
        v.stage is Running ==> (e matches EventView::ToolExited { success, .. } && success),
        v.stage is Building ==> (e matches EventView::BuildExited { success, .. } && success),
{
}

/// The action given in answer to `events[i]` runs the WiX application `t`,
/// and the next event reports that it exited successfully.
pub open spec fn tool_ran_ok(v: RunView, events: Seq<EventView>, i: nat, t: Tool) -> bool {
    &&& i + 1 < events.len()
    &&& action_at(v, events, i) matches ActionView::RunTool(u, _) && u == t
    &&& events[(i + 1) as int] matches EventView::ToolExited { success, .. } && success
}

/// The action given in answer to `events[k]` is the release build, and the next
/// event reports that it exited successfully.
pub open spec fn build_ran_ok(v: RunView, events: Seq<EventView>, k: nat) -> bool {
    &&& k + 1 < events.len()
    &&& action_at(v, events, k) is Build
    &&& events[(k + 1) as int] matches EventView::BuildExited { success, .. } && success
}

/// Finds the step by which the build enters the stage ranked `r`, and shows
/// that the stage's action was given then and answered successfully next.
proof fn lemma_stage_passed(v: RunView, events: Seq<EventView>, r: int) -> (i: nat)
    requires
        accepted_run(v, events),
        stage_rank(state_at(v, events, events.len()).stage) == 11,
        stage_rank(v.stage) < r,
        r == 4 || r == 7 || r == 10,
        forall|j: nat| j < events.len() ==> gated(#[trigger] state_at(v, events, j), r),
    ensures
        i + 1 < events.len(),
        stage_rank(state_at(v, events, i + 1).stage) == r,
        r == 7 ==> tool_ran_ok(v, events, i, Tool::Compiler),
        r == 10 ==> tool_ran_ok(v, events, i, Tool::Linker),
        r == 4 ==> build_ran_ok(v, events, i),
{
    let n = events.len();
    let i = lemma_crossing(v, events, r, n);
    let s1 = state_at(v, events, i + 1);
    assert(spec_accepts(state_at(v, events, i).stage, events[i as int]));
    lemma_ranks_increase(v, events, i, i + 1);
    lemma_enter(state_at(v, events, i), events[i as int]);
    assert(i + 1 < n);
    assert(spec_accepts(s1.stage, events[(i + 1) as int]));
    assert(state_at(v, events, i + 2) == spec_advance(s1, events[(i + 1) as int]).0);
    if i + 2 < n {
        lemma_not_ended_before_end(v, events, i + 2);
    }
    lemma_leave(s1, events[(i + 1) as int]);
    i
}

/// A build that finishes has built the package with the release profile (unless
/// that is skipped), then run the compiler, then run the linker, in this order,
/// and each of them exited successfully.
pub proof fn finished_build_ran_each_step(settings: Settings, platform: Platform, events: Seq<EventView>)
    requires
        accepted_run(spec_start(settings, platform), events),
        state_at(spec_start(settings, platform), events, events.len()).stage is Finished,
    ensures
        exists|i: nat, j: nat|
            #![trigger tool_ran_ok(spec_start(settings, platform), events, i, Tool::Compiler), tool_ran_ok(spec_start(settings, platform), events, j, Tool::Linker)]
            i < j && tool_ran_ok(spec_start(settings, platform), events, i, Tool::Compiler)
                && tool_ran_ok(spec_start(settings, platform), events, j, Tool::Linker),
        !settings.no_build ==> exists|k: nat, i: nat|
            #![trigger build_ran_ok(spec_start(settings, platform), events, k), tool_ran_ok(spec_start(settings, platform), events, i, Tool::Compiler)]
            k < i && build_ran_ok(spec_start(settings, platform), events, k) && tool_ran_ok(
                spec_start(settings, platform),
                events,
                i,
                Tool::Compiler,
            ),
{
    let v = spec_start(settings, platform);
    let n = events.len();
    assert forall|j: nat| j < n implies gated(#[trigger] state_at(v, events, j), 7) && gated(
        state_at(v, events, j),
        10,
    ) && (!settings.no_build ==> gated(state_at(v, events, j), 4)) by {
        lemma_settings_kept(v, events, j);
        lemma_gates(state_at(v, events, j), settings.no_build);
    }
    let i = lemma_stage_passed(v, events, 7);
    let j = lemma_stage_passed(v, events, 10);
    if j <= i {
        if j < i {
            lemma_ranks_increase(v, events, j + 1, i + 1);
        }
        assert(false);
    }
    assert(tool_ran_ok(v, events, i, Tool::Compiler) && tool_ran_ok(v, events, j, Tool::Linker));
    if !settings.no_build {
        let k = lemma_stage_passed(v, events, 4);
        if i <= k {
            if i < k {
                lemma_ranks_increase(v, events, i + 1, k + 1);
            }
            assert(false);
        }
        assert(build_ran_ok(v, events, k) && tool_ran_ok(v, events, i, Tool::Compiler));
    }
}

/// The actions a build gives as it takes `events` in turn from `v`, up to the
/// first event that does not answer its last action, and where it ends.
pub open spec fn spec_run(v: RunView, events: Seq<EventView>) -> (RunView, Seq<ActionView>)
    decreases events.len(),
{
    if events.len() == 0 || !spec_accepts(v.stage, events[0]) {
        (v, Seq::empty())
    } else {
        let (next, action) = spec_advance(v, events[0]);
        let (end, rest) = spec_run(next, events.drop_first());
        (end, seq![action] + rest)
    }
}

proof fn lemma_run_cons(v: RunView, e: EventView, rest: Seq<EventView>)
    ensures
        spec_run(v, seq![e] + rest) == (if !spec_accepts(v.stage, e) {
            (v, Seq::<ActionView>::empty())
        } else {
            (
                spec_run(spec_advance(v, e).0, rest).0,
                seq![spec_advance(v, e).1] + spec_run(spec_advance(v, e).0, rest).1,
            )
        }),
{
    let events = seq![e] + rest;
    assert(events[0] == e);
    assert(events.drop_first() =~= rest);
}

proof fn lemma_run_ended(v: RunView, events: Seq<EventView>)
    requires
        v.stage is Failed,
    ensures
        spec_run(v, events) == (v, Seq::<ActionView>::empty()),
{
}

/// The first of the checks made before any application runs that fails, in
/// the order the build makes them: the manifest is a TOML document, the name,
/// the version, the localization file (where one is set), the WiX Source file.
pub open spec fn spec_first_check_failure(
    s: Settings,
    text: Seq<char>,
    locale_exists: bool,
    source_exists: bool,
    source_is_dir: bool,
) -> Option<Failure> {
    if manifest_name(text) is None || manifest_version(text) is None {
        Some(Failure::Toml)
    } else if spec_package_name(s, manifest_name(text)->0) is Err {
        Some(spec_package_name(s, manifest_name(text)->0)->Err_0)
    } else if spec_package_version(s, manifest_version(text)->0) is Err {
        Some(spec_package_version(s, manifest_version(text)->0)->Err_0)
    } else if spec_locale(s, locale_exists) is Err {
        Some(spec_locale(s, locale_exists)->Err_0)
    } else if spec_source(s, source_exists, source_is_dir) is Err {
        Some(spec_source(s, source_exists, source_is_dir)->Err_0)
    } else {
        None
    }
}

/// The answers to the checks made before any application runs: the start, the
/// manifest's text, whether the localization file exists (only where one is
/// set), and whether the WiX Source path exists and is a folder.
pub open spec fn check_events(
    s: Settings,
    text: Seq<char>,
    locale_exists: bool,
    source_exists: bool,
    source_is_dir: bool,
) -> Seq<EventView> {
    seq![EventView::Begin, EventView::ManifestRead(text)] + (if s.locale is Some {
        seq![EventView::LocaleChecked(locale_exists)]
    } else {
        Seq::empty()
    }) + seq![EventView::SourceChecked { exists: source_exists, is_dir: source_is_dir }]
}

/// Whether none of `actions` builds the package or runs a WiX application.
pub open spec fn no_process(actions: Seq<ActionView>) -> bool {
    forall|i: int| 0 <= i < actions.len() ==> !(#[trigger] actions[i] is Build) && !(actions[i] is RunTool)
}

/// Where one of the checks made before any application runs fails, the build
/// stops with the first failure in the order manifest, name, version,
/// localization file, WiX Source file, having run no process, and whatever
/// events come after, it gives no further action.
pub proof fn failed_check_stops_before_any_process(
    settings: Settings,
    platform: Platform,
    text: Seq<char>,
    locale_exists: bool,
    source_exists: bool,
    source_is_dir: bool,
    later: Seq<EventView>,
)
    requires
        spec_first_check_failure(settings, text, locale_exists, source_exists, source_is_dir) is Some,
    ensures
        ({
            let (end, actions) = spec_run(
                spec_start(settings, platform),
                check_events(settings, text, locale_exists, source_exists, source_is_dir) + later,
            );
            &&& end.stage is Failed
            &&& actions.len() > 0
            &&& actions.last() == ActionView::Fail(
                spec_first_check_failure(settings, text, locale_exists, source_exists, source_is_dir)->0,
            )
            &&& no_process(actions)
        }),
{
    let v0 = spec_start(settings, platform);
    let e_src = EventView::SourceChecked { exists: source_exists, is_dir: source_is_dir };
    let tail = if settings.locale is Some {
        seq![EventView::LocaleChecked(locale_exists), e_src] + later
    } else {
        seq![e_src] + later
    };
    let events = check_events(settings, text, locale_exists, source_exists, source_is_dir) + later;
    assert(events =~= seq![EventView::Begin] + (seq![EventView::ManifestRead(text)] + tail));
    lemma_run_cons(v0, EventView::Begin, seq![EventView::ManifestRead(text)] + tail);
    let v1 = spec_advance(v0, EventView::Begin).0;
    lemma_run_cons(v1, EventView::ManifestRead(text), tail);
    let v2 = spec_advance(v1, EventView::ManifestRead(text)).0;
    let a2 = spec_advance(v1, EventView::ManifestRead(text)).1;
    if v2.stage is Failed {
        lemma_run_ended(v2, tail);
        assert(spec_run(v0, events).1 =~= seq![spec_advance(v0, EventView::Begin).1, a2]);
    } else if settings.locale is Some {
        let rest = seq![e_src] + later;
        assert(tail =~= seq![EventView::LocaleChecked(locale_exists)] + rest);
        lemma_run_cons(v2, EventView::LocaleChecked(locale_exists), rest);
        let v3 = spec_advance(v2, EventView::LocaleChecked(locale_exists)).0;
        let a3 = spec_advance(v2, EventView::LocaleChecked(locale_exists)).1;
        if v3.stage is Failed {
            lemma_run_ended(v3, rest);
            assert(spec_run(v0, events).1 =~= seq![spec_advance(v0, EventView::Begin).1, a2, a3]);
        } else {
            lemma_run_cons(v3, e_src, later);
            let v4 = spec_advance(v3, e_src).0;
            lemma_run_ended(v4, later);
            assert(spec_run(v0, events).1 =~= seq![
                spec_advance(v0, EventView::Begin).1,
                a2,
                a3,
                spec_advance(v3, e_src).1,
            ]);
        }
    } else {
        lemma_run_cons(v2, e_src, later);
        let v4 = spec_advance(v2, e_src).0;
        lemma_run_ended(v4, later);
        assert(spec_run(v0, events).1 =~= seq![
            spec_advance(v0, EventView::Begin).1,
            a2,
            spec_advance(v2, e_src).1,
        ]);
    }
}

/// Where every check made before any application runs passes, the build gives
/// no failure and runs no process while making them, and then asks for the
/// release build, or, where that is skipped, starts looking for the compiler.
pub proof fn passed_checks_go_on(
    settings: Settings,
    platform: Platform,
    text: Seq<char>,
    locale_exists: bool,
    source_exists: bool,
    source_is_dir: bool,
)
    requires
        spec_first_check_failure(settings, text, locale_exists, source_exists, source_is_dir) is None,
    ensures
        ({
            let (end, actions) = spec_run(
                spec_start(settings, platform),
                check_events(settings, text, locale_exists, source_exists, source_is_dir),
            );
            &&& actions.len() == check_events(settings, text, locale_exists, source_exists, source_is_dir).len()
            &&& forall|i: int| 0 <= i < actions.len() ==> !(#[trigger] actions[i] is Fail)
            &&& forall|i: int| 0 <= i < actions.len() - 1 ==> !(#[trigger] actions[i] is Build) && !(actions[i] is RunTool)
            &&& if settings.no_build {
                actions.last() is CheckTool || actions.last() is ReadEnvironment
            } else {
                actions.last() is Build && end.stage is Building
            }
        }),
{
    let v0 = spec_start(settings, platform);
    let e_src = EventView::SourceChecked { exists: source_exists, is_dir: source_is_dir };
    let empty = Seq::<EventView>::empty();
    let tail = if settings.locale is Some {
        seq![EventView::LocaleChecked(locale_exists), e_src]
    } else {
        seq![e_src]
    };
    let events = check_events(settings, text, locale_exists, source_exists, source_is_dir);
    assert(events =~= seq![EventView::Begin] + (seq![EventView::ManifestRead(text)] + tail));
    lemma_run_cons(v0, EventView::Begin, seq![EventView::ManifestRead(text)] + tail);
    let v1 = spec_advance(v0, EventView::Begin).0;
    lemma_run_cons(v1, EventView::ManifestRead(text), tail);
    let v2 = spec_advance(v1, EventView::ManifestRead(text)).0;
    let a2 = spec_advance(v1, EventView::ManifestRead(text)).1;
    if settings.locale is Some {
        assert(tail =~= seq![EventView::LocaleChecked(locale_exists)] + (seq![e_src] + empty));
        lemma_run_cons(v2, EventView::LocaleChecked(locale_exists), seq![e_src] + empty);
        let v3 = spec_advance(v2, EventView::LocaleChecked(locale_exists)).0;
        let a3 = spec_advance(v2, EventView::LocaleChecked(locale_exists)).1;
        lemma_run_cons(v3, e_src, empty);
        assert(spec_run(spec_advance(v3, e_src).0, empty).1 =~= Seq::<ActionView>::empty());
        assert(spec_run(v0, events).1 =~= seq![
            spec_advance(v0, EventView::Begin).1,
            a2,
            a3,
            spec_advance(v3, e_src).1,
        ]);
    } else {
        assert(tail =~= seq![e_src] + empty);
        lemma_run_cons(v2, e_src, empty);
        assert(spec_run(spec_advance(v2, e_src).0, empty).1 =~= Seq::<ActionView>::empty());
        assert(spec_run(v0, events).1 =~= seq![
            spec_advance(v0, EventView::Begin).1,
            a2,
            spec_advance(v2, e_src).1,
        ]);
    }
}

} // verus!
