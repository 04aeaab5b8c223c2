//! What the command line asks for, and the work that follows from it.
//!
//! Reading the command line and doing the work belong to the program around
//! this library. In between stands the decision which work is due, with
//! which settings: that is [`App::plan`].

use crate::error::{Error, ErrorView};
use crate::task::{Output, OutputView};
use vstd::prelude::*;

verus! {

/// The parachain identifier that specs are generated for unless another is
/// given.
pub const DEFAULT_PARA_ID: u32 = 2000;

/// The chain name that is used unless another is given.
pub open spec fn default_chain_name() -> Seq<char> {
    "local-chain"@
}

/// Why quiet mode and a log directory cannot be had together.
pub open spec fn output_conflict() -> Seq<char> {
    "Cannot use `--quiet` and `--log <DIR>` together"@
}

/// A subcommand. Without one, the fleet is launched.
#[derive(Debug, PartialEq, Eq)]
pub enum Command {
    ExportGenesis {
        collator_bin: String,
        collator_spec: String,
        name: Option<String>,
        outdir: Option<String>,
    },
    GenerateSpecs {
        collator_bin: String,
        name: Option<String>,
        para_id: Option<u32>,
        outdir: Option<String>,
    },
    GenerateDocker { outdir: Option<String>, enable_volume: bool },
}

/// A [`Command`] as a mathematical value.
pub ghost enum CommandView {
    ExportGenesis {
        collator_bin: Seq<char>,
        collator_spec: Seq<char>,
        name: Option<Seq<char>>,
        outdir: Option<Seq<char>>,
    },
    GenerateSpecs {
        collator_bin: Seq<char>,
        name: Option<Seq<char>>,
        para_id: Option<u32>,
        outdir: Option<Seq<char>>,
    },
    GenerateDocker { outdir: Option<Seq<char>>, enable_volume: bool },
}

impl View for Command {
    type V = CommandView;

    open spec fn view(&self) -> CommandView {
        match *self {
            Command::ExportGenesis {
                collator_bin,
                collator_spec,
                name,
                outdir,
            } => CommandView::ExportGenesis {
                collator_bin: collator_bin@,
                collator_spec: collator_spec@,
                name: name.deep_view(),
                outdir: outdir.deep_view(),
            },
            Command::GenerateSpecs {
                collator_bin,
                name,
                para_id,
                outdir,
            } => CommandView::GenerateSpecs {
                collator_bin: collator_bin@,
                name: name.deep_view(),
                para_id,
                outdir: outdir.deep_view(),
            },
            Command::GenerateDocker { outdir, enable_volume } => CommandView::GenerateDocker {
                outdir: outdir.deep_view(),
                enable_volume,
            },
        }
    }
}

/// What was given on the command line.
#[derive(Debug, PartialEq, Eq)]
pub struct Options {
    /// The configuration file. Without one, the project root is searched.
    pub config: Option<String>,
    /// Discard the output of every process.
    pub quiet: bool,
    /// Capture the output of every process in a file in this directory.
    pub log: Option<String>,
    pub cmd: Option<Command>,
}

/// [`Options`] as a mathematical value.
pub ghost struct OptionsView {
    pub config: Option<Seq<char>>,
    pub quiet: bool,
    pub log: Option<Seq<char>>,
    pub cmd: Option<CommandView>,
}

impl View for Options {
    type V = OptionsView;

    open spec fn view(&self) -> OptionsView {
        OptionsView {
            config: self.config.deep_view(),
            quiet: self.quiet,
            log: self.log.deep_view(),
            cmd: match self.cmd {
                Some(cmd) => Some(cmd@),
                None => None,
            },
        }
    }
}

/// The work that is due, with every default filled in.
#[derive(Debug, PartialEq, Eq)]
pub enum Job {
    /// Launch the fleet described by `config`, or by the configuration found
    /// in the project root, and send the processes' output to `output`.
    Launch { config: Option<String>, output: Output },
    /// Export the genesis data of chain `name` with the collator `bin` and
    /// its spec `chain`, to `outdir` or else to the project root.
    ExportGenesis { bin: String, chain: String, name: String, outdir: Option<String> },
    /// Generate the specs of chain `name` for `para_id` with the collator
    /// `bin`, in `outdir` or else in the project root.
    GenerateSpecs { bin: String, name: String, para_id: u32, outdir: Option<String> },
    /// Render a deployment descriptor of the fleet described by `config`,
    /// in `outdir` or else in the project root.
    GenerateDocker { config: Option<String>, outdir: Option<String>, enable_volume: bool },
}

/// A [`Job`] as a mathematical value.
pub ghost enum JobView {
    Launch { config: Option<Seq<char>>, output: OutputView },
    ExportGenesis { bin: Seq<char>, chain: Seq<char>, name: Seq<char>, outdir: Option<Seq<char>> },
    GenerateSpecs { bin: Seq<char>, name: Seq<char>, para_id: u32, outdir: Option<Seq<char>> },
    GenerateDocker { config: Option<Seq<char>>, outdir: Option<Seq<char>>, enable_volume: bool },
}

impl View for Job {
    type V = JobView;

    open spec fn view(&self) -> JobView {
        match *self {
            Job::Launch { config, output } => JobView::Launch {
                config: config.deep_view(),
                output: output@,
            },
            Job::ExportGenesis { bin, chain, name, outdir } => JobView::ExportGenesis {
                bin: bin@,
                chain: chain@,
                name: name@,
                outdir: outdir.deep_view(),
            },
            Job::GenerateSpecs { bin, name, para_id, outdir } => JobView::GenerateSpecs {
                bin: bin@,
                name: name@,
                para_id,
                outdir: outdir.deep_view(),
            },
            Job::GenerateDocker { config, outdir, enable_volume } => JobView::GenerateDocker {
                config: config.deep_view(),
                outdir: outdir.deep_view(),
                enable_volume,
            },
        }
    }
}

/// A planned job, or the reason why there is none, as a mathematical value.
pub open spec fn plan_view(planned: Result<Job, Error>) -> Result<JobView, ErrorView> {
    match planned {
        Ok(job) => Ok(job@),
        Err(e) => Err(e@),
    }
}

/// A destination, or the reason why there is none, as a mathematical value.
pub open spec fn output_view(chosen: Result<Output, Error>) -> Result<OutputView, ErrorView> {
    match chosen {
        Ok(output) => Ok(output@),
        Err(e) => Err(e@),
    }
}

impl OptionsView {
    /// Where the processes' output goes: nowhere in quiet mode, to the log
    /// directory where one is given, and to the console otherwise. Quiet
    /// mode and a log directory together are refused.
    pub open spec fn output(self) -> Result<OutputView, ErrorView> {
        match self.log {
            Some(dir) => if self.quiet {
                Err(ErrorView::ProcessFailed(output_conflict()))
            } else {
                Ok(OutputView::Log(dir))
            },
            None => if self.quiet {
                Ok(OutputView::Discard)
            } else {
                Ok(OutputView::Inherit)
            },
        }
    }

    /// The job of launching the fleet.
    pub open spec fn launch(self) -> Result<JobView, ErrorView> {
        match self.output() {
            Ok(output) => Ok(JobView::Launch { config: self.config, output }),
            Err(e) => Err(e),
        }
    }

    /// The work that these options ask for: what the subcommand says, and
    /// without one the launch of the fleet.
    pub open spec fn plan(self) -> Result<JobView, ErrorView> {
        match self.cmd {
            Some(CommandView::ExportGenesis { collator_bin, collator_spec, name, outdir }) => Ok(
                JobView::ExportGenesis {
                    bin: collator_bin,
                    chain: collator_spec,
                    name: chain_name(name),
                    outdir,
                },
            ),
            Some(CommandView::GenerateSpecs { collator_bin, name, para_id, outdir }) => Ok(
                JobView::GenerateSpecs {
                    bin: collator_bin,
                    name: chain_name(name),
                    para_id: match para_id {
                        Some(id) => id,
                        None => DEFAULT_PARA_ID,
                    },
                    outdir,
                },
            ),
            Some(CommandView::GenerateDocker { outdir, enable_volume }) => Ok(
                JobView::GenerateDocker { config: self.config, outdir, enable_volume },
            ),
            None => self.launch(),
        }
    }
}

/// The chain name that was given, or else the default.
pub open spec fn chain_name(given: Option<Seq<char>>) -> Seq<char> {
    match given {
        Some(name) => name,
        None => default_chain_name(),
    }
}

/// A copy of a text that may be absent.
fn copy_text(text: &Option<String>) -> (copy: Option<String>)
    ensures
        copy.deep_view() == text.deep_view(),
{
    match text {
        Some(t) => Some(t.clone()),
        None => None,
    }
}

/// The chain name that was given, or else the default.
fn name_or_default(given: &Option<String>) -> (name: String)
    ensures
        name@ == chain_name(given.deep_view()),
{
    match given {
        Some(name) => name.clone(),
        None => "local-chain".to_owned(),
    }
}

/// The directory that output files go to: `outdir` where it is given, and
/// the project root otherwise.
pub fn output_directory(outdir: Option<String>, project_root: String) -> (dir: String)
    ensures
        dir@ == match outdir {
            Some(given) => given@,
            None => project_root@,
        },
{
    match outdir {
        Some(given) => given,
        None => project_root,
    }
}

impl Options {
    /// Where the processes' output goes. Quiet mode and a log directory
    /// together are refused.
    pub fn output(&self) -> (chosen: Result<Output, Error>)
        ensures
            output_view(chosen) == self@.output(),
    {
        match &self.log {
            Some(dir) => if self.quiet {
                Err(
                    Error::ProcessFailed(
                        "Cannot use `--quiet` and `--log <DIR>` together".to_owned(),
                    ),
                )
            } else {
                Ok(Output::Log(dir.clone()))
            },
            None => if self.quiet {
                Ok(Output::Discard)
            } else {
                Ok(Output::Inherit)
            },
        }
    }
}

/// The program as the command line set it up.
#[derive(Debug, PartialEq, Eq)]
pub struct App(Options);

impl View for App {
    type V = OptionsView;

    closed spec fn view(&self) -> OptionsView {
        self.0@
    }
}

impl App {
    pub fn new(options: Options) -> (app: App)
        ensures
            app@ == options@,
    {
        App(options)
    }

    /// The options that the program was set up with.
    pub fn options(&self) -> (options: &Options)
        ensures
            options@ == self@,
    {
        &self.0
    }

    /// Decides which work is due. Nothing is read, written or started.
    pub fn plan(&self) -> (planned: Result<Job, Error>)
        ensures
            plan_view(planned) == self@.plan(),
    {
        match &self.0.cmd {
            Some(cmd) => match cmd {
                Command::ExportGenesis {
                    collator_bin,
                    collator_spec,
                    name,
                    outdir,
                } => Ok(self.export_genesis(collator_bin, collator_spec, name, outdir)),
                Command::GenerateSpecs { collator_bin, name, para_id, outdir } => Ok(
                    self.generate_specs(collator_bin, name, para_id, outdir),
                ),
                Command::GenerateDocker { outdir, enable_volume } => Ok(
                    self.generate_docker(outdir, *enable_volume),
                ),
            },
            None => self.launch(),
        }
    }

    /// The job of launching the fleet. Quiet mode and a log directory
    /// together are refused.
    pub fn launch(&self) -> (planned: Result<Job, Error>)
        ensures
            plan_view(planned) == self@.launch(),
    {
        match self.0.output() {
            Ok(output) => Ok(Job::Launch { config: copy_text(&self.0.config), output }),
            Err(e) => Err(e),
        }
    }

    /// The job of exporting genesis data.
    fn export_genesis(
        &self,
        bin: &String,
        chain: &String,
        name: &Option<String>,
        outdir: &Option<String>,
    ) -> (job: Job)
        ensures
            job@ == (JobView::ExportGenesis {
                bin: bin@,
                chain: chain@,
                name: chain_name(name.deep_view()),
                outdir: outdir.deep_view(),
            }),
    {
        Job::ExportGenesis {
            bin: bin.clone(),
            chain: chain.clone(),
            name: name_or_default(name),
            outdir: copy_text(outdir),
        }
    }

    /// The job of generating specs from a collator.
    fn generate_specs(
        &self,
        bin: &String,
        name: &Option<String>,
        para_id: &Option<u32>,
        outdir: &Option<String>,
    ) -> (job: Job)
        ensures
            job@ == (JobView::GenerateSpecs {
                bin: bin@,
                name: chain_name(name.deep_view()),
                para_id: match *para_id {
                    Some(id) => id,
                    None => DEFAULT_PARA_ID,
                },
                outdir: outdir.deep_view(),
            }),
    {
        Job::GenerateSpecs {
            bin: bin.clone(),
            name: name_or_default(name),
            para_id: match para_id {
                Some(id) => *id,
                None => DEFAULT_PARA_ID,
            },
            outdir: copy_text(outdir),
        }
    }

    /// The job of rendering a deployment descriptor.
    fn generate_docker(&self, outdir: &Option<String>, enable_volume: bool) -> (job: Job)
        ensures
            job@ == (JobView::GenerateDocker {
                config: self@.config,
                outdir: outdir.deep_view(),
                enable_volume,
            }),
    {
        Job::GenerateDocker {
            config: copy_text(&self.0.config),
            outdir: copy_text(outdir),
            enable_volume,
        }
    }
}

/// Quiet mode and a log directory together are refused before anything is
/// launched: no destination is chosen, and where no subcommand is given no
/// job is planned.
pub proof fn lemma_quiet_excludes_log(options: OptionsView)
    requires
        options.quiet,
        options.log is Some,
    ensures
        options.output() == Err::<OutputView, _>(ErrorView::ProcessFailed(output_conflict())),
        options.launch() == Err::<JobView, _>(ErrorView::ProcessFailed(output_conflict())),
        options.cmd is None ==> options.plan() is Err,
{
}

/// Without the two together, a destination is always chosen.
pub proof fn lemma_output_chosen(options: OptionsView)
    requires
        !(options.quiet && options.log is Some),
    ensures
        options.output() is Ok,
        options.launch() is Ok,
{
}

} // verus!
