//! The command-line options: the flags and values that the argument parser
//! reported, turned into the options the application starts with.
use vstd::prelude::*;
use crate::table::text_view;

verus! {

/// One argument as the parser reported it: its name, how often it was given,
/// and its value where that value is a string.
pub struct CliArg {
    pub name: String,
    pub occurrences: u8,
    pub value: Option<String>,
}

/// The options the application starts with.
pub struct CliOptions {
    pub portable_mode: bool,
    pub safe_mode: bool,
    pub disable_3p_plugins: bool,
    pub disable_shutdown_check: bool,
    pub multi: bool,
    pub log_verbose: bool,
    pub unfiltered_log: bool,
    pub opt_start_streaming: bool,
    pub opt_start_recording: bool,
    pub opt_studio_mode: bool,
    pub opt_start_replaybuffer: bool,
    pub opt_start_virtualcam: bool,
    pub opt_minimize_tray: bool,
    pub opt_allow_opengl: bool,
    pub opt_always_on_top: bool,
    pub opt_disable_updater: bool,
    pub opt_disable_missing_files_check: bool,
    pub opt_starting_collection: Option<String>,
    pub opt_starting_profile: Option<String>,
    pub opt_starting_scene: Option<String>,
}

/// What the arguments ask for: print the version and stop, or run with options.
pub enum CliOutcome {
    ShowVersion,
    Run(CliOptions),
}

/// Whether an argument named `name` was given at least once.
pub open spec fn flag_given(args: Seq<CliArg>, name: Seq<char>) -> bool
    decreases args.len(),
{
    if args.len() == 0 {
        false
    } else {
        (args.last().name@ == name && args.last().occurrences >= 1) || flag_given(
            args.drop_last(),
            name,
        )
    }
}

/// The string value of the last argument named `name` that was given, if any.
pub open spec fn value_given(args: Seq<CliArg>, name: Seq<char>) -> Option<Seq<char>>
    decreases args.len(),
{
    if args.len() == 0 {
        None
    } else if args.last().name@ == name && args.last().occurrences >= 1 {
        text_view(args.last().value)
    } else {
        value_given(args.drop_last(), name)
    }
}

/// The options that arguments `args` give: each flag is set where its argument
/// was given (`multi` sets `disable_shutdown_check` too), and each value is the
/// one given, where it is a string.
pub open spec fn options_from(o: CliOptions, args: Seq<CliArg>) -> bool {
    &&& o.portable_mode == flag_given(args, "portable"@)
    &&& o.safe_mode == flag_given(args, "safe-mode"@)
    &&& o.disable_3p_plugins == flag_given(args, "only-bundled-plugins"@)
    &&& o.disable_shutdown_check == (flag_given(args, "disable-shutdown-check"@) || flag_given(args, "multi"@))
    &&& o.multi == flag_given(args, "multi"@)
    &&& o.log_verbose == flag_given(args, "verbose"@)
    &&& o.unfiltered_log == flag_given(args, "unfiltered_log"@)
    &&& o.opt_start_streaming == flag_given(args, "startstreaming"@)
    &&& o.opt_start_recording == flag_given(args, "startrecording"@)
    &&& o.opt_studio_mode == flag_given(args, "studio-mode"@)
    &&& o.opt_start_replaybuffer == flag_given(args, "startreplaybuffer"@)
    &&& o.opt_start_virtualcam == flag_given(args, "startvirtualcam"@)
    &&& o.opt_minimize_tray == flag_given(args, "minimize-to-tray"@)
    &&& o.opt_allow_opengl == flag_given(args, "allow-opengl"@)
    &&& o.opt_always_on_top == flag_given(args, "always-on-top"@)
    &&& o.opt_disable_updater == flag_given(args, "disable-updater"@)
    &&& o.opt_disable_missing_files_check == flag_given(args, "disable-missing-files-check"@)
    &&& text_view(o.opt_starting_collection) == value_given(args, "collection"@)
    &&& text_view(o.opt_starting_profile) == value_given(args, "profile"@)
    &&& text_view(o.opt_starting_scene) == value_given(args, "scene"@)
}

/// Two option sets with the same flags and the same values.
pub open spec fn same_options(a: CliOptions, b: CliOptions) -> bool {
    &&& a.portable_mode == b.portable_mode
    &&& a.safe_mode == b.safe_mode
    &&& a.disable_3p_plugins == b.disable_3p_plugins
    &&& a.disable_shutdown_check == b.disable_shutdown_check
    &&& a.multi == b.multi
    &&& a.log_verbose == b.log_verbose
    &&& a.unfiltered_log == b.unfiltered_log
    &&& a.opt_start_streaming == b.opt_start_streaming
    &&& a.opt_start_recording == b.opt_start_recording
    &&& a.opt_studio_mode == b.opt_studio_mode
    &&& a.opt_start_replaybuffer == b.opt_start_replaybuffer
    &&& a.opt_start_virtualcam == b.opt_start_virtualcam
    &&& a.opt_minimize_tray == b.opt_minimize_tray
    &&& a.opt_allow_opengl == b.opt_allow_opengl
    &&& a.opt_always_on_top == b.opt_always_on_top
    &&& a.opt_disable_updater == b.opt_disable_updater
    &&& a.opt_disable_missing_files_check == b.opt_disable_missing_files_check
    &&& text_view(a.opt_starting_collection) == text_view(b.opt_starting_collection)
    &&& text_view(a.opt_starting_profile) == text_view(b.opt_starting_profile)
    &&& text_view(a.opt_starting_scene) == text_view(b.opt_starting_scene)
}

proof fn lemma_given_after_push(args: Seq<CliArg>, a: CliArg)
    ensures
        forall|name: Seq<char>|
            #[trigger] flag_given(args.push(a), name) == ((a.name@ == name && a.occurrences >= 1)
                || flag_given(args, name)),
        forall|name: Seq<char>|
            #[trigger] value_given(args.push(a), name) == if a.name@ == name && a.occurrences
                >= 1 {
                text_view(a.value)
            } else {
                value_given(args, name)
            },
{
    assert(args.push(a).drop_last() =~= args);
}

fn clone_value(v: &Option<String>) -> (r: Option<String>)
    ensures
        text_view(r) == text_view(*v),
{
    match v {
        Some(s) => Some(s.clone()),
        None => None,
    }
}

fn is_named(a: &CliArg, name: &str) -> (r: bool)
    ensures
        r == (a.name@ == name@ && a.occurrences >= 1),
{
    a.occurrences >= 1 && a.name == name.to_owned()
}

impl CliOptions {
    /// No flag set and no value given.
    pub fn empty() -> (r: CliOptions)
        ensures
            options_from(r, Seq::empty()),
    {
        CliOptions {
            portable_mode: false,
            safe_mode: false,
            disable_3p_plugins: false,
            disable_shutdown_check: false,
            multi: false,
            log_verbose: false,
            unfiltered_log: false,
            opt_start_streaming: false,
            opt_start_recording: false,
            opt_studio_mode: false,
            opt_start_replaybuffer: false,
            opt_start_virtualcam: false,
            opt_minimize_tray: false,
            opt_allow_opengl: false,
            opt_always_on_top: false,
            opt_disable_updater: false,
            opt_disable_missing_files_check: false,
            opt_starting_collection: None,
            opt_starting_profile: None,
            opt_starting_scene: None,
        }
    }

    /// A copy with the same flags and values.
    pub fn copy(&self) -> (r: CliOptions)
        ensures
            same_options(r, *self),
    {
        CliOptions {
            portable_mode: self.portable_mode,
            safe_mode: self.safe_mode,
            disable_3p_plugins: self.disable_3p_plugins,
            disable_shutdown_check: self.disable_shutdown_check,
            multi: self.multi,
            log_verbose: self.log_verbose,
            unfiltered_log: self.unfiltered_log,
            opt_start_streaming: self.opt_start_streaming,
            opt_start_recording: self.opt_start_recording,
            opt_studio_mode: self.opt_studio_mode,
            opt_start_replaybuffer: self.opt_start_replaybuffer,
            opt_start_virtualcam: self.opt_start_virtualcam,
            opt_minimize_tray: self.opt_minimize_tray,
            opt_allow_opengl: self.opt_allow_opengl,
            opt_always_on_top: self.opt_always_on_top,
            opt_disable_updater: self.opt_disable_updater,
            opt_disable_missing_files_check: self.opt_disable_missing_files_check,
            opt_starting_collection: clone_value(&self.opt_starting_collection),
            opt_starting_profile: clone_value(&self.opt_starting_profile),
            opt_starting_scene: clone_value(&self.opt_starting_scene),
        }
    }

    /// Takes one more argument into account.
    fn apply(&self, a: &CliArg, Ghost(seen): Ghost<Seq<CliArg>>) -> (r: CliOptions)
        requires
            options_from(*self, seen),
        ensures
            options_from(r, seen.push(*a)),
    {
        proof {
            lemma_given_after_push(seen, *a);
        }
        let opt_starting_collection = if is_named(a, "collection") {
            clone_value(&a.value)
        } else {
            clone_value(&self.opt_starting_collection)
        };
        let opt_starting_profile = if is_named(a, "profile") {
            clone_value(&a.value)
        } else {
            clone_value(&self.opt_starting_profile)
        };
        let opt_starting_scene = if is_named(a, "scene") {
            clone_value(&a.value)
        } else {
            clone_value(&self.opt_starting_scene)
        };
        let portable_given = is_named(a, "portable");
        let safe_mode_given = is_named(a, "safe-mode");
        let only_bundled_plugins_given = is_named(a, "only-bundled-plugins");
        let disable_shutdown_check_given = is_named(a, "disable-shutdown-check");
        let multi_given = is_named(a, "multi");
        let verbose_given = is_named(a, "verbose");
        let unfiltered_log_given = is_named(a, "unfiltered_log");
        let startstreaming_given = is_named(a, "startstreaming");
        let startrecording_given = is_named(a, "startrecording");
        let studio_mode_given = is_named(a, "studio-mode");
        let startreplaybuffer_given = is_named(a, "startreplaybuffer");
        let startvirtualcam_given = is_named(a, "startvirtualcam");
        let minimize_to_tray_given = is_named(a, "minimize-to-tray");
        let allow_opengl_given = is_named(a, "allow-opengl");
        let always_on_top_given = is_named(a, "always-on-top");
        let disable_updater_given = is_named(a, "disable-updater");
        let disable_missing_files_check_given = is_named(a, "disable-missing-files-check");
        CliOptions {
            portable_mode: self.portable_mode || portable_given,
            safe_mode: self.safe_mode || safe_mode_given,
            disable_3p_plugins: self.disable_3p_plugins || only_bundled_plugins_given,
            disable_shutdown_check: self.disable_shutdown_check || disable_shutdown_check_given
                || multi_given,
            multi: self.multi || multi_given,
            log_verbose: self.log_verbose || verbose_given,
            unfiltered_log: self.unfiltered_log || unfiltered_log_given,
            opt_start_streaming: self.opt_start_streaming || startstreaming_given,
            opt_start_recording: self.opt_start_recording || startrecording_given,
            opt_studio_mode: self.opt_studio_mode || studio_mode_given,
            opt_start_replaybuffer: self.opt_start_replaybuffer || startreplaybuffer_given,
            opt_start_virtualcam: self.opt_start_virtualcam || startvirtualcam_given,
            opt_minimize_tray: self.opt_minimize_tray || minimize_to_tray_given,
            opt_allow_opengl: self.opt_allow_opengl || allow_opengl_given,
            opt_always_on_top: self.opt_always_on_top || always_on_top_given,
            opt_disable_updater: self.opt_disable_updater || disable_updater_given,
            opt_disable_missing_files_check: self.opt_disable_missing_files_check
                || disable_missing_files_check_given,
            opt_starting_collection,
            opt_starting_profile,
            opt_starting_scene,
        }
    }
}

/// What the arguments ask for: the version where `version` was given, else
/// the options they give.
pub fn parse_cli(args: &Vec<CliArg>) -> (r: CliOutcome)
    ensures
        r is ShowVersion <==> flag_given(args@, "version"@),
        r is Run ==> options_from(r->Run_0, args@),
{
    let mut o = CliOptions::empty();
    let mut i: usize = 0;
    let mut version = false;
    while i < args.len()
        invariant
            i <= args@.len(),
            options_from(o, args@.subrange(0, i as int)),
            version == flag_given(args@.subrange(0, i as int), "version"@),
        decreases args@.len() - i,
    {
        assert(args@.subrange(0, i + 1).drop_last() =~= args@.subrange(0, i as int));
        assert(args@.subrange(0, i as int).push(args@[i as int]) =~= args@.subrange(0, i + 1));
        if is_named(&args[i], "version") {
            version = true;
        }
        o = o.apply(&args[i], Ghost(args@.subrange(0, i as int)));
        i = i + 1;
    }
    assert(args@.subrange(0, i as int) =~= args@);
    if version {
        CliOutcome::ShowVersion
    } else {
        CliOutcome::Run(o)
    }
}

/// The options, set once at start.
pub struct CliCell {
    pub options: Option<CliOptions>,
}

impl CliCell {
    /// A cell that holds no options yet.
    pub fn new() -> (r: CliCell)
        ensures
            r.options is None,
    {
        CliCell { options: None }
    }

    /// Stores `options` where the cell holds none yet; a cell that holds
    /// options keeps them.
    pub fn init(&mut self, options: CliOptions)
        ensures
            old(self).options is None ==> final(self).options is Some && same_options(
                final(self).options->0,
                options,
            ),
            old(self).options is Some ==> final(self).options is Some && same_options(
                final(self).options->0,
                old(self).options->0,
            ),
    {
        if self.options.is_none() {
            self.options = Some(options);
        }
    }
}

/// The options the application started with.
pub fn cli(cell: &CliCell) -> (r: CliOptions)
    requires
        cell.options is Some,
    ensures
        same_options(r, cell.options->0),
{
    match &cell.options {
        Some(o) => o.copy(),
        None => CliOptions::empty(),
    }
}

} // verus!
