use jocker::builder::{BuildStep, ImageBuildError, ImageBuilder, JockerfileCommand};
use jocker::container::ContainerError;
use jocker::image::ImageError;

fn lines(script: &str) -> Vec<String> {
    script.lines().map(String::from).collect()
}

fn is_identifier(s: &str) -> bool {
    s.len() == 36
        && s.chars().enumerate().all(|(i, c)| {
            if i == 8 || i == 13 || i == 18 || i == 23 {
                c == '-'
            } else {
                c.is_ascii_digit() || ('a'..='f').contains(&c)
            }
        })
}

#[test]
fn empty_script_is_refused() {
    let builder = ImageBuilder::from_reader(lines(""));
    assert_eq!(builder.build(None), Err(ImageBuildError::EmptyBuildScript));
}

#[test]
fn script_of_empty_lines_is_refused() {
    let builder = ImageBuilder::from_reader(lines("\n\n\n"));
    assert_eq!(builder.build(None), Err(ImageBuildError::EmptyBuildScript));
}

#[test]
fn missing_from_is_refused() {
    let builder = ImageBuilder::from_reader(lines("RUN true"));
    assert_eq!(builder.build(None), Err(ImageBuildError::MissingFromDirective));
}

#[test]
fn whitespace_first_line_is_missing_from() {
    let builder = ImageBuilder::from_reader(lines("   \nFROM base"));
    assert_eq!(builder.build(None), Err(ImageBuildError::MissingFromDirective));
}

#[test]
fn from_alone_is_refused() {
    let builder = ImageBuilder::from_reader(lines("FROM"));
    assert_eq!(builder.build(None), Err(ImageBuildError::InvalidFromDirective));
}

#[test]
fn from_with_two_names_is_refused() {
    let builder = ImageBuilder::from_reader(lines("FROM base other"));
    assert_eq!(builder.build(None), Err(ImageBuildError::InvalidFromDirective));
}

#[test]
fn from_directive_gives_the_base_image() {
    assert_eq!(
        ImageBuilder::parse_from_directive(Some("FROM base")),
        Ok("base".to_string())
    );
    assert_eq!(
        ImageBuilder::parse_from_directive(Some(" \tFROM \t alpine  ")),
        Ok("alpine".to_string())
    );
    assert_eq!(
        ImageBuilder::parse_from_directive(None),
        Err(ImageBuildError::EmptyBuildScript)
    );
    assert_eq!(
        ImageBuilder::parse_from_directive(Some("from base")),
        Err(ImageBuildError::MissingFromDirective)
    );
    assert_eq!(
        ImageBuilder::parse_from_directive(Some("FROMbase")),
        Err(ImageBuildError::MissingFromDirective)
    );
}

#[test]
fn unknown_directive_is_refused_in_its_step() {
    let builder = ImageBuilder::from_reader(lines("FROM base\nCOPY x y"));
    let plan = builder.build(None).unwrap();
    assert_eq!(plan.steps.len(), 1);
    assert_eq!(
        plan.steps[0].command,
        Err(ImageBuildError::InvalidCommand("COPY".to_string()))
    );
    assert_eq!(
        plan.steps[0].command_to_run(Ok(())),
        Err(ImageBuildError::InvalidCommand("COPY".to_string()))
    );
}

#[test]
fn commands_are_read_by_their_first_word() {
    assert_eq!(
        ImageBuilder::parse_command("RUN touch /a"),
        Ok(JockerfileCommand::Run("touch /a".to_string()))
    );
    assert_eq!(
        ImageBuilder::parse_command("RUN  two spaces"),
        Ok(JockerfileCommand::Run(" two spaces".to_string()))
    );
    assert_eq!(
        ImageBuilder::parse_command("RUN"),
        Err(ImageBuildError::InvalidArguments(1, 0))
    );
    assert_eq!(
        ImageBuilder::parse_command("RUN "),
        Err(ImageBuildError::InvalidArguments(1, 0))
    );
    assert_eq!(
        ImageBuilder::parse_command("COPY x y"),
        Err(ImageBuildError::InvalidCommand("COPY".to_string()))
    );
    assert_eq!(
        ImageBuilder::parse_command("RUN\ttrue"),
        Err(ImageBuildError::InvalidCommand("RUN\ttrue".to_string()))
    );
    assert_eq!(
        ImageBuilder::parse_command(" RUN true"),
        Err(ImageBuildError::InvalidCommand("".to_string()))
    );
}

#[test]
fn two_step_build_chains_its_images() {
    let builder = ImageBuilder::from_reader(lines("FROM base\nRUN touch /a\n\nRUN touch /b"));
    let plan = builder.build(Some("out".to_string())).unwrap();
    assert_eq!(plan.base_image, "base");
    assert_eq!(plan.steps.len(), 2);
    assert_eq!(plan.steps[0].base_image, "base");
    assert_eq!(
        plan.steps[0].command,
        Ok(JockerfileCommand::Run("touch /a".to_string()))
    );
    assert_eq!(plan.steps[1].base_image, plan.steps[0].image);
    assert_eq!(
        plan.steps[1].command,
        Ok(JockerfileCommand::Run("touch /b".to_string()))
    );
    for step in &plan.steps {
        assert!(is_identifier(&step.container));
        assert!(is_identifier(&step.image));
    }
    assert_ne!(plan.steps[0].image, plan.steps[1].image);
    assert_ne!(plan.steps[0].container, plan.steps[1].container);
    assert_eq!(plan.last_image(), plan.steps[1].image);
    assert_eq!(
        plan.publication(),
        Some((plan.steps[1].image.clone(), "out".to_string()))
    );
}

#[test]
fn build_without_commands_publishes_the_base() {
    let builder = ImageBuilder::from_reader(lines("FROM base"));
    let plan = builder.build(Some("copy".to_string())).unwrap();
    assert!(plan.steps.is_empty());
    assert_eq!(plan.last_image(), "base");
    assert_eq!(
        plan.publication(),
        Some(("base".to_string(), "copy".to_string()))
    );
    let unnamed = builder.build(None).unwrap();
    assert_eq!(unnamed.publication(), None);
}

#[test]
fn build_has_one_step_for_each_command() {
    for k in 0..6 {
        let mut script = String::from("FROM base\n");
        for i in 0..k {
            script.push_str(&format!("\nRUN echo {}\n", i));
        }
        let plan = ImageBuilder::from_reader(lines(&script)).build(None).unwrap();
        assert_eq!(plan.steps.len(), k);
    }
}

#[test]
fn content_lines_drop_the_empty_ones() {
    let builder = ImageBuilder::from_reader(lines("\nFROM a\n\n \nRUN b\n"));
    assert_eq!(
        builder.content_lines(),
        vec!["FROM a".to_string(), " ".to_string(), "RUN b".to_string()]
    );
}

#[test]
fn step_failures_are_intermediate_container_errors() {
    let step = BuildStep::new(
        "c".to_string(),
        "base".to_string(),
        "RUN true",
        "i".to_string(),
    );
    assert_eq!(
        step.command_to_run(Ok(())),
        Ok(JockerfileCommand::Run("true".to_string()))
    );
    assert_eq!(
        step.command_to_run(Err(ContainerError::CannotSaveConfigurationFile)),
        Err(ImageBuildError::IntermediateContainerError(
            ContainerError::CannotSaveConfigurationFile
        ))
    );
    assert_eq!(step.conclude(Ok(())), Ok(()));
    assert_eq!(
        step.conclude(Err(ContainerError::ContainerSetupError)),
        Err(ImageBuildError::IntermediateContainerError(
            ContainerError::ContainerSetupError
        ))
    );
    let refused = BuildStep::new("c".to_string(), "base".to_string(), "RUN", "i".to_string());
    assert_eq!(
        refused.command_to_run(Err(ContainerError::ContainerSetupError)),
        Err(ImageBuildError::IntermediateContainerError(
            ContainerError::ContainerSetupError
        ))
    );
    assert_eq!(
        refused.command_to_run(Ok(())),
        Err(ImageBuildError::InvalidArguments(1, 0))
    );
}

#[test]
fn failed_publication_is_reported() {
    let plan = ImageBuilder::from_reader(lines("FROM base"))
        .build(Some("x".to_string()))
        .unwrap();
    assert_eq!(plan.finish(Ok(())), Ok(()));
    assert_eq!(
        plan.finish(Err(ImageError::CannotImportTarball("denied".to_string()))),
        Err(ImageBuildError::CannotCreateResultingImage(
            ImageError::CannotImportTarball("denied".to_string())
        ))
    );
    assert_eq!(
        ImageBuilder::execute_command(
            &JockerfileCommand::Run("true".to_string()),
            Err(ContainerError::ContainerExitedAbnormally)
        ),
        Err(ImageBuildError::IntermediateContainerError(
            ContainerError::ContainerExitedAbnormally
        ))
    );
    assert_eq!(
        JockerfileCommand::Run("touch /a".to_string()).to_text(),
        "RUN touch /a"
    );
}

#[test]
fn build_errors_are_worded() {
    assert_eq!(ImageBuildError::EmptyBuildScript.message(), "empty build script");
    assert_eq!(
        ImageBuildError::MissingFromDirective.message(),
        "missing FROM directive"
    );
    assert_eq!(
        ImageBuildError::InvalidFromDirective.message(),
        "invalid FROM directive"
    );
    assert_eq!(
        ImageBuildError::InvalidCommand("COPY".to_string()).message(),
        "invalid command COPY"
    );
    assert_eq!(
        ImageBuildError::InvalidArguments(1, 0).message(),
        "invalid arguments, expected 1, got 0"
    );
    assert_eq!(
        ImageBuildError::IntermediateContainerError(ContainerError::CommandExitedWithError(2))
            .message(),
        "error in intermediate container: command exited with error code: 2"
    );
    assert_eq!(
        ImageBuildError::CannotCreateResultingImage(ImageError::InvalidImage).message(),
        "unable to create the resulting image: invalid image"
    );
}
