//! The image builder: reading a build script and planning the chain of
//! intermediate containers that it stands for.
//!
//! A script is a sequence of lines, of which the empty ones are skipped.
//! The first line that is left names the base image; every later one is a
//! command. Each command runs in a fresh container on the image that the
//! previous step left, and the container is then exported as the image
//! that the next step starts from.

use vstd::prelude::*;
use vstd::string::*;
use crate::container::{container_error_text, ContainerError};
use crate::image::{image_error_text, ImageError};
use crate::names::{fresh_identifier, is_identifier};
use crate::text::{
    decimal, decimal_text, find_char, first_at, same_text, scan, scan_from, slice_of, texts,
};

verus! {

/// A command of a build script.
#[derive(Debug, Clone, PartialEq, Eq, Hash)]
pub enum JockerfileCommand {
    /// Run a shell command in the container.
    Run(String),
}

impl JockerfileCommand {
    /// The command as a script writes it.
    pub fn to_text(&self) -> (r: String)
        ensures
            match *self {
                JockerfileCommand::Run(args) => r@ == "RUN "@ + args@,
            },
    {
        match self {
            JockerfileCommand::Run(args) => String::from_str("RUN ").concat(args.as_str()),
        }
    }
}

/// What can go wrong with a build.
#[derive(Debug, Clone, PartialEq, Eq)]
pub enum ImageBuildError {
    /// The script holds no line but empty ones.
    EmptyBuildScript,
    /// The first line does not start with `FROM`.
    MissingFromDirective,
    /// The first line does not hold exactly `FROM` and an image name.
    InvalidFromDirective,
    /// A line starts with a word that is no command.
    InvalidCommand(String),
    /// A command has not the arguments it needs: how many it needs, and
    /// how many it has.
    InvalidArguments(u32, u32),
    /// An intermediate container failed.
    IntermediateContainerError(ContainerError),
    /// The last image could not be stored under the requested name.
    CannotCreateResultingImage(ImageError),
}

/// The text that a build error is reported with.
pub open spec fn build_error_text(e: ImageBuildError) -> Seq<char> {
    match e {
        ImageBuildError::EmptyBuildScript => "empty build script"@,
        ImageBuildError::MissingFromDirective => "missing FROM directive"@,
        ImageBuildError::InvalidFromDirective => "invalid FROM directive"@,
        ImageBuildError::InvalidCommand(word) => "invalid command "@ + word@,
        ImageBuildError::InvalidArguments(expected, got) => "invalid arguments, expected "@
            + decimal(expected as int) + ", got "@ + decimal(got as int),
        ImageBuildError::IntermediateContainerError(cause) => "error in intermediate container: "@
            + container_error_text(cause),
        ImageBuildError::CannotCreateResultingImage(cause) =>
            "unable to create the resulting image: "@ + image_error_text(cause),
    }
}

impl ImageBuildError {
    /// A copy of this error.
    pub fn duplicate(&self) -> (r: Self)
        ensures
            r == *self,
    {
        match self {
            ImageBuildError::EmptyBuildScript => ImageBuildError::EmptyBuildScript,
            ImageBuildError::MissingFromDirective => ImageBuildError::MissingFromDirective,
            ImageBuildError::InvalidFromDirective => ImageBuildError::InvalidFromDirective,
            ImageBuildError::InvalidCommand(word) => ImageBuildError::InvalidCommand(word.clone()),
            ImageBuildError::InvalidArguments(expected, got) => ImageBuildError::InvalidArguments(
                *expected,
                *got,
            ),
            ImageBuildError::IntermediateContainerError(cause) =>
                ImageBuildError::IntermediateContainerError(cause.duplicate()),
            ImageBuildError::CannotCreateResultingImage(cause) =>
                ImageBuildError::CannotCreateResultingImage(cause.duplicate()),
        }
    }

    /// The report of this error: its context, then its cause.
    pub fn message(&self) -> (r: String)
        ensures
            r@ == build_error_text(*self),
    {
        match self {
            ImageBuildError::EmptyBuildScript => String::from_str("empty build script"),
            ImageBuildError::MissingFromDirective => String::from_str("missing FROM directive"),
            ImageBuildError::InvalidFromDirective => String::from_str("invalid FROM directive"),
            ImageBuildError::InvalidCommand(word) => String::from_str("invalid command ").concat(
                word.as_str(),
            ),
            ImageBuildError::InvalidArguments(expected, got) => String::from_str(
                "invalid arguments, expected ",
            ).concat(decimal_text(*expected as i64).as_str()).concat(", got ").concat(
                decimal_text(*got as i64).as_str(),
            ),
            ImageBuildError::IntermediateContainerError(cause) => String::from_str(
                "error in intermediate container: ",
            ).concat(cause.message().as_str()),
            ImageBuildError::CannotCreateResultingImage(cause) => String::from_str(
                "unable to create the resulting image: ",
            ).concat(cause.message().as_str()),
        }
    }
}

/// What the first line of a script says.
pub enum Directive {
    /// Its first word is not `FROM`.
    Missing,
    /// `FROM` is not followed by exactly one word.
    Invalid,
    /// `FROM` and the name of the base image.
    Base(Seq<char>),
}

/// What a later line of a script says.
pub enum Instruction {
    /// `RUN` and the shell command to run: all that follows the first space.
    Run(Seq<char>),
    /// `RUN` with nothing after it.
    NoArguments,
    /// A first word that is no command.
    Unknown(Seq<char>),
}

/// Reads a first line: words are separated by ASCII whitespace, the first
/// must be `FROM`, the second is the base image, and there is no third.
pub open spec fn directive(line: Seq<char>) -> Directive {
    let first = scan(line, false, 0);
    let first_end = scan(line, true, first);
    let second = scan(line, false, first_end);
    let second_end = scan(line, true, second);
    let third = scan(line, false, second_end);
    if first >= line.len() || line.subrange(first, first_end) != "FROM"@ {
        Directive::Missing
    } else if second >= line.len() || third < line.len() {
        Directive::Invalid
    } else {
        Directive::Base(line.subrange(second, second_end))
    }
}

/// Reads a command line: the word before the first space decides, and all
/// after that space is the argument.
pub open spec fn instruction(line: Seq<char>) -> Instruction {
    let space = first_at(line, ' ', 0);
    let word = line.subrange(0, space);
    if word != "RUN"@ {
        Instruction::Unknown(word)
    } else if space + 1 < line.len() {
        Instruction::Run(line.subrange(space + 1, line.len() as int))
    } else {
        Instruction::NoArguments
    }
}

/// Whether `r` is what reading the command line `line` gives.
pub open spec fn command_is(r: Result<JockerfileCommand, ImageBuildError>, line: Seq<char>) -> bool {
    match instruction(line) {
        Instruction::Run(args) => r matches Ok(JockerfileCommand::Run(a)) && a@ == args,
        Instruction::NoArguments => r == Err::<JockerfileCommand, ImageBuildError>(
            ImageBuildError::InvalidArguments(1, 0),
        ),
        Instruction::Unknown(word) => r matches Err(ImageBuildError::InvalidCommand(w)) && w@
            == word,
    }
}

/// Whether a line counts: it is not empty.
pub open spec fn counts() -> spec_fn(Seq<char>) -> bool {
    |line: Seq<char>| line.len() > 0
}

/// The lines of a script that count, in their order.
pub open spec fn content(lines: Seq<Seq<char>>) -> Seq<Seq<char>> {
    lines.filter(counts())
}

/// One step of a build: a fresh container on `base_image` in which
/// `command` runs, exported afterwards as the image `image`.
#[derive(Debug, PartialEq, Eq)]
pub struct BuildStep {
    /// The name of the intermediate container.
    pub container: String,
    /// The image that the container starts from.
    pub base_image: String,
    /// The command read from the step's line, or why the line is refused.
    /// The container is created before the line is looked at.
    pub command: Result<JockerfileCommand, ImageBuildError>,
    /// The name of the image that the container is exported as.
    pub image: String,
}

impl BuildStep {
    /// The step for one command line, with the names it is to use.
    pub fn new(container: String, base_image: String, line: &str, image: String) -> (r: Self)
        ensures
            r.container == container,
            r.base_image == base_image,
            r.image == image,
            command_is(r.command, line@),
    {
        BuildStep { container, base_image, command: ImageBuilder::parse_command(line), image }
    }

    /// The shell command that this step runs, once its container was
    /// made: a failure to create the container is reported first, as an
    /// `IntermediateContainerError`; then a line that was refused, with the
    /// error of its reading.
    pub fn command_to_run(&self, created: Result<(), ContainerError>) -> (r: Result<
        JockerfileCommand,
        ImageBuildError,
    >)
        ensures
            match created {
                Err(e) => r == Err::<JockerfileCommand, ImageBuildError>(
                    ImageBuildError::IntermediateContainerError(e),
                ),
                Ok(_) => match self.command {
                    Err(refused) => r == Err::<JockerfileCommand, ImageBuildError>(
                        refused,
                    ),
                    Ok(JockerfileCommand::Run(args)) => r == Ok::<
                        JockerfileCommand,
                        ImageBuildError,
                    >(JockerfileCommand::Run(args)),
                },
            },
    {
        match created {
            Err(e) => Err(ImageBuildError::IntermediateContainerError(e)),
            Ok(_) => match &self.command {
                Err(refused) => Err(refused.duplicate()),
                Ok(JockerfileCommand::Run(args)) => Ok(JockerfileCommand::Run(args.clone())),
            },
        }
    }

    /// The result of this step once its command has run, from what the
    /// export of its container gave: a failure there is reported as an
    /// `IntermediateContainerError`.
    pub fn conclude(&self, exported: Result<(), ContainerError>) -> (r: Result<
        (),
        ImageBuildError,
    >)
        ensures
            match exported {
                Ok(_) => r is Ok,
                Err(e) => r == Err::<(), ImageBuildError>(
                    ImageBuildError::IntermediateContainerError(e),
                ),
            },
    {
        match exported {
            Ok(_) => Ok(()),
            Err(e) => Err(ImageBuildError::IntermediateContainerError(e)),
        }
    }
}

/// The plan of a build: its steps in order, and under which name the last
/// image is to be published, if under any.
#[derive(Debug, PartialEq, Eq)]
pub struct BuildPlan {
    /// The image named by the script's first line.
    pub base_image: String,
    /// One step for each command line.
    pub steps: Vec<BuildStep>,
    /// The requested name of the resulting image.
    pub name: Option<String>,
}

impl BuildPlan {
    /// The image that step `i` starts from: the script's base image for
    /// the first step, else the image that the step before leaves.
    pub open spec fn base_of(&self, i: int) -> Seq<char> {
        if i <= 0 {
            self.base_image@
        } else {
            self.steps@[i - 1].image@
        }
    }

    /// The image that the build results in: the one that the last step
    /// leaves, or the base image where there is no step.
    pub open spec fn result_image(&self) -> Seq<char> {
        self.base_of(self.steps@.len() as int)
    }

    /// Whether this is a plan for the lines `script` (those that count)
    /// with the base image `base`: one step for each line after the first,
    /// reading that line, starting from the image before it, under names
    /// that are random identifiers.
    pub open spec fn follows(&self, base: Seq<char>, script: Seq<Seq<char>>) -> bool {
        &&& script.len() >= 1
        &&& self.base_image@ == base
        &&& self.steps@.len() == script.len() - 1
        &&& forall|i: int|
            0 <= i < self.steps@.len() ==> {
                &&& (#[trigger] self.steps@[i]).base_image@ == self.base_of(i)
                &&& command_is(self.steps@[i].command, script[i + 1])
                &&& is_identifier(self.steps@[i].container@)
                &&& is_identifier(self.steps@[i].image@)
            }
    }

    /// The name of the image that results from the build.
    pub fn last_image(&self) -> (r: &str)
        ensures
            r@ == self.result_image(),
    {
        if self.steps.len() == 0 {
            self.base_image.as_str()
        } else {
            self.steps[self.steps.len() - 1].image.as_str()
        }
    }

    /// The publication that ends the build: the image to copy and the name
    /// to copy it to, where a name was requested.
    pub fn publication(&self) -> (r: Option<(String, String)>)
        ensures
            match self.name {
                None => r is None,
                Some(name) => r matches Some(copy) && copy.0@ == self.result_image() && copy.1@
                    == name@,
            },
    {
        match &self.name {
            None => None,
            Some(name) => Some((String::from_str(self.last_image()), name.clone())),
        }
    }

    /// The result of the build once every step has succeeded, from what
    /// the publication gave: a failure of it is reported as
    /// `CannotCreateResultingImage`.
    pub fn finish(&self, published: Result<(), ImageError>) -> (r: Result<(), ImageBuildError>)
        ensures
            match published {
                Ok(_) => r is Ok,
                Err(e) => r == Err::<(), ImageBuildError>(
                    ImageBuildError::CannotCreateResultingImage(e),
                ),
            },
    {
        match published {
            Ok(_) => Ok(()),
            Err(e) => Err(ImageBuildError::CannotCreateResultingImage(e)),
        }
    }
}

/// An image builder over the lines of a build script.
#[derive(Debug, Clone, PartialEq, Eq)]
pub struct ImageBuilder {
    lines: Vec<String>,
}

/// Whether `r` is what building the script `lines` under `name` gives.
pub open spec fn build_is(
    r: Result<BuildPlan, ImageBuildError>,
    lines: Seq<Seq<char>>,
    name: Option<String>,
) -> bool {
    if content(lines).len() == 0 {
        r == Err::<BuildPlan, ImageBuildError>(ImageBuildError::EmptyBuildScript)
    } else {
        match directive(content(lines)[0]) {
            Directive::Missing => r == Err::<BuildPlan, ImageBuildError>(
                ImageBuildError::MissingFromDirective,
            ),
            Directive::Invalid => r == Err::<BuildPlan, ImageBuildError>(
                ImageBuildError::InvalidFromDirective,
            ),
            Directive::Base(base) => r matches Ok(plan) && plan.follows(base, content(lines))
                && plan.name == name,
        }
    }
}

impl ImageBuilder {
    /// The lines of the script, as they were read.
    pub closed spec fn spec_lines(&self) -> Seq<Seq<char>> {
        texts(self.lines@)
    }

    /// A builder over the lines read from a script.
    pub fn from_reader(lines: Vec<String>) -> (r: Self)
        ensures
            r.spec_lines() == texts(lines@),
    {
        ImageBuilder { lines }
    }

    /// Reads the first line that counts of a script: `EmptyBuildScript`
    /// where there is none, `MissingFromDirective` where it does not start
    /// with `FROM`, `InvalidFromDirective` where `FROM` is not followed by
    /// exactly one word, else that word, the base image.
    pub fn parse_from_directive(first: Option<&str>) -> (r: Result<String, ImageBuildError>)
        ensures
            match first {
                None => r == Err::<String, ImageBuildError>(ImageBuildError::EmptyBuildScript),
                Some(line) => match directive(line@) {
                    Directive::Missing => r == Err::<String, ImageBuildError>(
                        ImageBuildError::MissingFromDirective,
                    ),
                    Directive::Invalid => r == Err::<String, ImageBuildError>(
                        ImageBuildError::InvalidFromDirective,
                    ),
                    Directive::Base(base) => r matches Ok(name) && name@ == base,
                },
            },
    {
        let line: &str = match first {
            None => {
                return Err(ImageBuildError::EmptyBuildScript);
            },
            Some(line) => line,
        };
        let n: usize = line.unicode_len();
        let first_start: usize = scan_from(line, false, 0);
        let first_end: usize = scan_from(line, true, first_start);
        if first_start >= n || !same_text(line.substring_char(first_start, first_end), "FROM") {
            return Err(ImageBuildError::MissingFromDirective);
        }
        let second: usize = scan_from(line, false, first_end);
        if second >= n {
            return Err(ImageBuildError::InvalidFromDirective);
        }
        let second_end: usize = scan_from(line, true, second);
        let third: usize = scan_from(line, false, second_end);
        if third < n {
            return Err(ImageBuildError::InvalidFromDirective);
        }
        Ok(slice_of(line, second, second_end))
    }

    /// Reads a command line: `RUN` and a space and a command give that
    /// command; `RUN` with nothing after it gives `InvalidArguments(1, 0)`;
    /// another first word gives `InvalidCommand` with that word.
    pub fn parse_command(line: &str) -> (r: Result<JockerfileCommand, ImageBuildError>)
        ensures
            command_is(r, line@),
    {
        let n: usize = line.unicode_len();
        let space: usize = find_char(line, ' ', 0);
        let word: &str = line.substring_char(0, space);
        if !same_text(word, "RUN") {
            Err(ImageBuildError::InvalidCommand(String::from_str(word)))
        } else if space < n && space + 1 < n {
            Ok(JockerfileCommand::Run(slice_of(line, space + 1, n)))
        } else {
            Err(ImageBuildError::InvalidArguments(1, 0))
        }
    }

    /// The result of running `command` in an intermediate container: a
    /// failure there is reported as `IntermediateContainerError`.
    pub fn execute_command(command: &JockerfileCommand, ran: Result<(), ContainerError>) -> (r:
        Result<(), ImageBuildError>)
        ensures
            match ran {
                Ok(_) => r is Ok,
                Err(e) => r == Err::<(), ImageBuildError>(
                    ImageBuildError::IntermediateContainerError(e),
                ),
            },
    {
        match ran {
            Ok(_) => Ok(()),
            Err(e) => Err(ImageBuildError::IntermediateContainerError(e)),
        }
    }

    /// The lines of the script that count, in their order.
    pub fn content_lines(&self) -> (r: Vec<String>)
        ensures
            texts(r@) == content(self.spec_lines()),
    {
        let mut out: Vec<String> = Vec::new();
        let mut i: usize = 0;
        proof {
            reveal(Seq::filter);
            assert(self.spec_lines().take(0) =~= Seq::<Seq<char>>::empty());
            assert(texts(out@) =~= Seq::<Seq<char>>::empty());
        }
        while i < self.lines.len()
            invariant
                i <= self.lines@.len(),
                texts(out@) == self.spec_lines().take(i as int).filter(counts()),
            decreases self.lines@.len() - i,
        {
            let ghost before = out@;
            let ghost line = self.lines@[i as int]@;
            proof {
                assert(self.spec_lines().take(i as int + 1) =~= self.spec_lines().take(
                    i as int,
                ).push(line));
                self.spec_lines().take(i as int).lemma_filter_push(line, counts());
            }
            if self.lines[i].as_str().unicode_len() > 0 {
                out.push(self.lines[i].clone());
                proof {
                    assert(texts(out@) =~= texts(before).push(line));
                }
            }
            i += 1;
        }
        proof {
            assert(self.spec_lines().take(self.lines@.len() as int) =~= self.spec_lines());
        }
        out
    }

    /// Plans the build of the script, to result in an image called `name`
    /// where one is given.
    ///
    /// An empty script, or a first line that does not name a base image,
    /// is refused with the error of that line. Otherwise the plan holds
    /// one step for each later line that counts, in order; each step
    /// starts from the image that the one before it leaves, and the names
    /// of its container and of its image are random identifiers.
    pub fn build(&self, name: Option<String>) -> (r: Result<BuildPlan, ImageBuildError>)
        ensures
            build_is(r, self.spec_lines(), name),
    {
        let script: Vec<String> = self.content_lines();
        let first: Option<&str> = if script.len() == 0 {
            None
        } else {
            Some(script[0].as_str())
        };
        let base_image: String = match Self::parse_from_directive(first) {
            Ok(base) => base,
            Err(e) => {
                return Err(e);
            },
        };
        let ghost lines = content(self.spec_lines());
        let ghost base = base_image@;
        let mut plan = BuildPlan { base_image, steps: Vec::new(), name };
        let mut i: usize = 1;
        proof {
            assert(texts(script@)[0] == script@[0]@);
        }
        while i < script.len()
            invariant
                1 <= i <= script@.len(),
                texts(script@) == lines,
                plan.name == name,
                plan.base_image@ == base,
                plan.follows(plan.base_image@, texts(script@).take(i as int)),
            decreases script@.len() - i,
        {
            let container: String = fresh_identifier();
            let image: String = fresh_identifier();
            let base: String = String::from_str(plan.last_image());
            let step = BuildStep::new(container, base, script[i].as_str(), image);
            let ghost before = plan;
            plan.steps.push(step);
            proof {
                assert(plan.base_image == before.base_image);
                assert(plan.steps@ == before.steps@.push(step));
                assert forall|j: int| 0 <= j < plan.steps@.len() implies {
                    &&& (#[trigger] plan.steps@[j]).base_image@ == plan.base_of(j)
                    &&& command_is(plan.steps@[j].command, texts(script@).take(i as int + 1)[j + 1])
                    &&& is_identifier(plan.steps@[j].container@)
                    &&& is_identifier(plan.steps@[j].image@)
                } by {
                    if j < before.steps@.len() {
                        assert(plan.steps@[j] == before.steps@[j]);
                        assert(before.base_of(j) == plan.base_of(j));
                        assert(texts(script@).take(i as int)[j + 1] == texts(script@).take(
                            i as int + 1,
                        )[j + 1]);
                    }
                }
            }
            i += 1;
        }
        proof {
            assert(texts(script@).take(script@.len() as int) =~= texts(script@));
        }
        Ok(plan)
    }
}

/// A script whose lines are all accepted is planned with one step for
/// each command line, hence one intermediate image for each, and its
/// result is the image that the last step leaves.
pub proof fn build_has_one_image_per_command(
    builder: ImageBuilder,
    name: Option<String>,
    r: Result<BuildPlan, ImageBuildError>,
)
    requires
        build_is(r, builder.spec_lines(), name),
        content(builder.spec_lines()).len() >= 1,
        directive(content(builder.spec_lines())[0]) is Base,
    ensures
        r is Ok,
        r->Ok_0.steps@.len() == content(builder.spec_lines()).len() - 1,
        r->Ok_0.name == name,
        r->Ok_0.steps@.len() > 0 ==> r->Ok_0.result_image() == r->Ok_0.steps@.last().image@,
        r->Ok_0.steps@.len() == 0 ==> r->Ok_0.result_image() == r->Ok_0.base_image@,
{
}

} // verus!
