use swapeme::error::{Error, HandledError, HandledErrorKind, Remedy, StepEvent, StepState, UnhandledError};
use swapeme::theme::spicetify::archive::is_theme_file_name;
use swapeme::theme::spicetify::install::SpicetifyProbe;
use swapeme::theme::spicetify::{
    Spicetify, SpicetifyConfig, SpicetifyConfigSetting, ThemeSpicetify,
};
use std::io::{Cursor, Write};
use std::path::Path;
use zip::write::SimpleFileOptions;
use zip::ZipWriter;

fn global() -> Spicetify {
    Spicetify { is_global: true, path: "/opt/spicetify".to_string() }
}

fn local() -> Spicetify {
    Spicetify::local("/home/u/.cache")
}

fn foo() -> ThemeSpicetify {
    ThemeSpicetify {
        name: "Foo".to_string(),
        color_scheme: None,
        url: Some("https://example.org/foo.zip".to_string()),
    }
}

fn archive(entries: &[(&str, &[u8])]) -> Vec<u8> {
    let mut writer = ZipWriter::new(Cursor::new(Vec::new()));
    for (name, data) in entries {
        writer.start_file(*name, SimpleFileOptions::default()).unwrap();
        writer.write_all(data).unwrap();
    }
    writer.finish().unwrap().into_inner()
}

#[test]
fn commands_of_a_global_installation() {
    let s = global();
    assert_eq!(s.invoke_command().program, "spicetify");
    assert!(s.invoke_command().args.is_empty());
    assert_eq!(s.config().args, ["config"]);
    assert_eq!(s.set_color_scheme("dark").program, "spicetify");
    assert_eq!(s.set_color_scheme("dark").args, ["config", "color_scheme", "dark"]);
    assert_eq!(s.apply().args, ["apply"]);
    assert_eq!(s.config_path_query().args, ["--config"]);
    assert_eq!(Spicetify::probe().program, "spicetify");
    assert_eq!(Spicetify::probe().args, ["path"]);
}

#[test]
fn commands_of_a_local_installation() {
    let s = local();
    assert!(!s.is_global);
    assert_eq!(Path::new(&s.path), Path::new("/home/u/.cache/spicetify"));
    assert_eq!(
        Path::new(&s.invoke_command().program),
        Path::new("/home/u/.cache/spicetify/spicetify.exe")
    );
    assert_eq!(s.apply().args, ["apply"]);
}

#[test]
fn paths_of_a_skin() {
    let s = global();
    assert_eq!(Path::new(&s.get_theme_path("Foo")), Path::new("/opt/spicetify/Themes/Foo"));
    assert_eq!(
        Path::new(&s.get_theme_marker("Foo")),
        Path::new("/opt/spicetify/Themes/Foo/color.ini")
    );
}

#[test]
fn locating_the_tool() {
    let found = Spicetify::new(SpicetifyProbe::Global {
        stdout: "C:\\Users\\u\\spicetify\r\nrest".to_string(),
    })
    .unwrap();
    assert!(found.is_global);
    assert_eq!(found.path, "C:\\Users\\u\\spicetify");

    let found = Spicetify::new(SpicetifyProbe::Local {
        cache_dir: "/home/u/.cache".to_string(),
        launched: true,
    })
    .unwrap();
    assert!(!found.is_global);
    assert_eq!(Path::new(&found.path), Path::new("/home/u/.cache/spicetify"));

    match Spicetify::new(SpicetifyProbe::Local {
        cache_dir: "/home/u/.cache".to_string(),
        launched: false,
    }) {
        Err(Error::HandledError(HandledErrorKind::SpicetifyNotInstalled(e))) => {
            assert_eq!(e.to_string(), "Spicetify installation not found");
            assert_eq!(e.item(), "spotify theme");
            assert_eq!(e.action(), "Install spicetify for spotify theme");
            match e.handle() {
                Remedy::OpenAndWait { command, prompt } => {
                    assert_eq!(command.program, "cmd");
                    assert_eq!(command.args, ["/C", "start", "https://spicetify.app/"]);
                    assert_eq!(prompt, "Waiting for spicetify installation press enter when done");
                }
                other => panic!("{other:?}"),
            }
        }
        other => panic!("{other:?}"),
    }
}

#[test]
fn config_path_is_the_first_line_of_the_answer() {
    assert_eq!(
        global().get_config_path("/home/u/.config/spicetify/config-xpui.ini\n"),
        "/home/u/.config/spicetify/config-xpui.ini"
    );
}

#[test]
fn set_theme_runs_three_commands() {
    let s = global();
    let commands = s.set_theme(&foo(), true).unwrap();
    assert_eq!(commands.len(), 3);
    assert_eq!(commands[0].args, ["config", "current_theme", "Foo"]);
    assert_eq!(commands[1].args, ["config", "color_scheme", "Spotify"]);
    assert_eq!(commands[2].args, ["apply"]);
    assert!(commands.iter().all(|c| c.program == "spicetify"));
    let themed = ThemeSpicetify { color_scheme: Some("Nord".to_string()), ..foo() };
    assert_eq!(s.set_theme(&themed, true).unwrap()[1].args, ["config", "color_scheme", "Nord"]);
}

#[test]
fn missing_skin_is_mended_by_downloading_it() {
    let s = global();
    let theme = foo();
    // the skin is not installed
    let failure = s.set_theme(&theme, false).unwrap_err();
    let remedy = match &failure {
        Error::HandledError(HandledErrorKind::SpicetifyThemeNotFound(e)) => {
            assert_eq!(e.to_string(), "Foo spicetify theme not installed");
            assert_eq!(e.item(), "spotify theme");
            assert_eq!(e.action(), "Install theme");
            e.handle()
        }
        other => panic!("{other:?}"),
    };
    let state = Error::error_prone_step(
        Error::start_step::<Vec<swapeme::cli::Invocation>>(),
        StepEvent::Returned(Err(failure)),
    );
    let dialog = state.dialog().unwrap();
    assert!(dialog.prompt.ends_with(" Foo spicetify theme not installed\nWhat would you like to do"));
    assert!(dialog.prompt.contains(" ERR "));
    assert_eq!(dialog.items, ["Skip spotify theme", "Install theme"]);
    assert_eq!(dialog.default, 0);
    let state = Error::error_prone_step(state, StepEvent::Picked(Some(1)));
    assert!(matches!(state, StepState::Remedying(_)));
    assert!(matches!(state.remedy(), Some(Remedy::DownloadTheme { .. })));

    // the remedy: download and unpack
    let (spicetify, wanted) = match remedy {
        Remedy::DownloadTheme { spicetify, theme, notice, done } => {
            assert_eq!(notice, "Downloading theme...");
            assert_eq!(done, "Downloaded theme Foo");
            (spicetify, theme)
        }
        other => panic!("{other:?}"),
    };
    assert_eq!(wanted.download_url().unwrap(), "https://example.org/foo.zip");
    let bytes = archive(&[
        ("repo-main/Foo/user.css", b"body {}"),
        ("repo-main/Foo/color.ini", b"[Base]"),
        ("repo-main/Foo/theme.js", b"//js"),
        ("repo-main/Foo/README.md", b"read me"),
        ("repo-main/Bar/color.ini", b"[Bar]"),
        ("repo-main/Foo/assets/pic.png", b"png"),
    ]);
    let files = spicetify.download_theme(&wanted, bytes).unwrap();
    let written: Vec<(&Path, &[u8])> =
        files.iter().map(|f| (Path::new(&f.path), f.data.as_slice())).collect();
    assert_eq!(
        written,
        [
            (Path::new("/opt/spicetify/Themes/Foo/user.css"), &b"body {}"[..]),
            (Path::new("/opt/spicetify/Themes/Foo/color.ini"), &b"[Base]"[..]),
            (Path::new("/opt/spicetify/Themes/Foo/theme.js"), &b"//js"[..]),
        ]
    );
    assert!(files.iter().any(|f| Path::new(&f.path) == Path::new(&s.get_theme_marker("Foo"))));

    // the step is run again and succeeds
    let state = Error::error_prone_step(state, StepEvent::Remedied);
    assert!(matches!(state, StepState::Pending));
    let state =
        Error::error_prone_step(state, StepEvent::Returned(s.set_theme(&theme, true)));
    assert!(state
        .banner(Some(&theme.success_message()))
        .unwrap()
        .ends_with(" Applied theme Foo to spotify"));
    let commands = state.finish().ok().unwrap().unwrap();
    assert_eq!(commands.len(), 3);
}

#[test]
fn entries_of_a_skin() {
    assert!(is_theme_file_name("x/Foo/user.css", "Foo"));
    assert!(is_theme_file_name("Foo/color.ini", "Foo"));
    assert!(is_theme_file_name("Foo-theme.js", "Foo"));
    assert!(is_theme_file_name("a/color.ini.bak/Foo", "Foo"));
    assert!(!is_theme_file_name("x/Foo/readme.md", "Foo"));
    assert!(!is_theme_file_name("x/Bar/user.css", "Foo"));
    assert!(!is_theme_file_name("x/foo/user.css", "Foo"));
    assert!(is_theme_file_name("user.css", ""));
}

#[test]
fn download_without_an_address_fails() {
    let theme = ThemeSpicetify { url: None, ..foo() };
    assert!(matches!(
        theme.download_url(),
        Err(Error::UnhandledError(UnhandledError::FailedToDownloadTheme))
    ));
}

#[test]
fn bytes_that_are_no_archive_fail() {
    let result = global().download_theme(&foo(), b"this is no archive".to_vec());
    assert!(matches!(result, Err(Error::UnhandledError(UnhandledError::Zip(_)))));
    let result = global().download_theme(&foo(), Vec::new());
    assert!(matches!(result, Err(Error::UnhandledError(UnhandledError::Zip(_)))));
}

#[test]
fn archive_without_the_skin_gives_nothing() {
    let bytes = archive(&[("Bar/user.css", b"x"), ("notes.txt", b"y")]);
    assert!(global().download_theme(&foo(), bytes).unwrap().is_empty());
    assert!(global().download_theme(&foo(), archive(&[])).unwrap().is_empty());
}

#[test]
fn entry_of_the_skin_without_a_file_name_fails() {
    let bytes = archive(&[("Foo/color.ini/..", b"x")]);
    assert!(matches!(
        global().download_theme(&foo(), bytes),
        Err(Error::UnhandledError(UnhandledError::FailedToDownloadTheme))
    ));
}

#[test]
fn corrupt_content_of_the_skin_fails() {
    let data = vec![7u8; 4096];
    let mut bytes = archive(&[("Foo/color.ini", &data)]);
    // damage the stored checksum of the only entry, in both of its headers
    let crc = crc_of(&bytes);
    let mut hits = 0;
    for i in 0..bytes.len() - 4 {
        if bytes[i..i + 4] == crc {
            bytes[i] ^= 0xff;
            hits += 1;
        }
    }
    assert!(hits >= 1);
    let result = global().download_theme(&foo(), bytes);
    assert!(matches!(
        result,
        Err(Error::UnhandledError(UnhandledError::IOError(_) | UnhandledError::Zip(_)))
    ));
}

fn crc_of(bytes: &[u8]) -> [u8; 4] {
    let mut zip = zip::ZipArchive::new(Cursor::new(bytes.to_vec())).unwrap();
    let crc = zip.by_index(0).unwrap().crc32();
    crc.to_le_bytes()
}

#[test]
fn current_skin_from_the_settings() {
    let config = SpicetifyConfig {
        setting: SpicetifyConfigSetting {
            current_theme: "Sleek".to_string(),
            color_scheme: Some("Nord".to_string()),
        },
    };
    let theme = ThemeSpicetify::get_current(config);
    assert_eq!(theme.name, "Sleek");
    assert_eq!(theme.color_scheme.as_deref(), Some("Nord"));
    assert!(theme.url.is_none());
    assert_eq!(theme.success_message(), "Applied theme Sleek to spotify");
}
