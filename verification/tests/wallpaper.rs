use swapeme::error::{Error, HandledError, HandledErrorKind, Remedy, StepEvent, StepState};
use swapeme::theme::wallpaper_engine::apply::{
    Shown, ThemeWEWallpaper, ThemeWallpaperEngine,
};
use swapeme::theme::wallpaper_engine::config::{
    UserWallpaperConfig, UserWallpaperConfigForMonitor, UserWallpaperConfigMonitorId,
    WallpaperEngineConfig, WallpaperEngineUserConfig, WallpaperEngineUserGeneralConfig,
};
use swapeme::theme::wallpaper_engine::error::Error as EngineError;
use swapeme::theme::wallpaper_engine::{Wallpaper, WallpaperEngine, WallpaperKind};
use swapeme::vdf::{VdfAttribute, VdfValue};
use std::path::Path;

fn engine() -> WallpaperEngine {
    WallpaperEngine::new_with_path("/lib/steamapps/common/wallpaper_engine".to_string())
}

fn workshop(id: &str) -> Wallpaper {
    Wallpaper { id: id.to_string(), kind: WallpaperKind::Workshop }
}

fn located() -> WallpaperEngine {
    let apps = VdfAttribute {
        key: "apps".to_string(),
        value: VdfValue::Block(vec![VdfAttribute {
            key: "431960".to_string(),
            value: VdfValue::String("0".to_string()),
        }]),
    };
    let path = VdfAttribute {
        key: "path".to_string(),
        value: VdfValue::String("/lib".to_string()),
    };
    let library = VdfAttribute { key: "0".to_string(), value: VdfValue::Block(vec![path, apps]) };
    let data = VdfAttribute {
        key: "libraryfolders".to_string(),
        value: VdfValue::Block(vec![library]),
    };
    WallpaperEngine::new(&data).expect("Failed to initialize WallpaperEngine")
}

#[test]
fn test_open_workshop() {
    let engine = located();
    let result = engine.open_workshop_page_for_wallpaper("1836324036");
    assert_eq!(result.program, "cmd");
    assert_eq!(
        result.args,
        ["/C", "start", "steam://url/CommunityFilePage/1836324036"]
    );
}

#[test]
fn test_set_wallpaper() {
    let engine = located();
    let action = engine
        .try_set_wallpaper(
            &Wallpaper { id: "1836324036".to_string(), kind: WallpaperKind::Workshop },
            0,
        )
        .unwrap();
    assert_eq!(
        Path::new(&action.file),
        Path::new("/lib/steamapps/workshop/content/431960/1836324036/project.json")
    );
    assert_eq!(
        Path::new(&action.command.program),
        Path::new("/lib/steamapps/common/wallpaper_engine/wallpaper32.exe")
    );
    assert_eq!(action.command.args[0], "-control");
    assert_eq!(action.command.args[1], "openWallpaper");
    assert_eq!(action.command.args[2], "-file");
    assert_eq!(action.command.args[3], action.file);
    assert_eq!(action.command.args[4], "-monitor");
    assert_eq!(action.command.args[5], "0");
    assert_eq!(action.command.args.len(), 6);
    action.conclude(Shown::Exited { success: true }).unwrap();
}

#[test]
fn paths_of_an_installation() {
    let e = engine();
    assert_eq!(
        Path::new(&e.get_app32_path()),
        Path::new("/lib/steamapps/common/wallpaper_engine/wallpaper32.exe")
    );
    assert!(e.has_library());
    assert_eq!(
        Path::new(&e.get_workshop_path()),
        Path::new("/lib/steamapps/workshop/content/431960")
    );
    assert_eq!(e.find_workshop_path(), Some(e.get_workshop_path()));
    assert_eq!(
        Path::new(&e.get_workshop_wallpaper_path("42")),
        Path::new("/lib/steamapps/workshop/content/431960/42/project.json")
    );
    assert_eq!(
        Path::new(&e.get_local_wallpaper_path("42", "myprojects")),
        Path::new("/lib/steamapps/common/wallpaper_engine/projects/myprojects/42/project.json")
    );
    assert_eq!(
        Path::new(&e.get_config_path()),
        Path::new("/lib/steamapps/common/wallpaper_engine/config.json")
    );
    let local = Wallpaper { id: "7".to_string(), kind: WallpaperKind::DefaultProjects };
    assert_eq!(
        Path::new(&e.get_wallpaper_path(&local)),
        Path::new(
            "/lib/steamapps/common/wallpaper_engine/projects/defaultprojects/7/project.json"
        )
    );
    let command = e.invoke_command();
    assert_eq!(command.program, e.get_app32_path());
    assert_eq!(command.args, ["-control"]);
}

#[test]
fn installation_outside_a_library() {
    let lonely = WallpaperEngine::new_with_path("engine".to_string());
    assert!(!lonely.has_library());
    assert_eq!(lonely.find_workshop_path(), None);
    assert!(lonely.try_set_wallpaper(&workshop("42"), 0).is_none());
    let local = Wallpaper { id: "42".to_string(), kind: WallpaperKind::MyProjects };
    let action = lonely.try_set_wallpaper(&local, 2).unwrap();
    assert_eq!(
        Path::new(&action.file),
        Path::new("engine/projects/myprojects/42/project.json")
    );
    assert_eq!(action.command.args[5], "2");
    let theme = ThemeWallpaperEngine {
        wallpapers: Some(vec![ThemeWEWallpaper { wallpaper: workshop("1"), monitor: 0 }]),
        playlist: None,
    };
    let steps = theme.apply(&lonely);
    assert_eq!(steps.len(), 1);
    assert!(steps[0].action.is_none());
    assert_eq!(steps[0].success_message, "Applied wallpaper 1 from workshop on monitor 0");
    // a local wallpaper before a workshop one is shown all the same
    let theme = ThemeWallpaperEngine {
        wallpapers: Some(vec![
            ThemeWEWallpaper { wallpaper: local, monitor: 0 },
            ThemeWEWallpaper { wallpaper: workshop("1"), monitor: 1 },
        ]),
        playlist: None,
    };
    let steps = theme.apply(&lonely);
    assert_eq!(steps.len(), 2);
    assert!(steps[0].action.is_some());
    assert!(steps[1].action.is_none());
}

#[test]
fn kinds_and_their_names() {
    for kind in [WallpaperKind::Workshop, WallpaperKind::MyProjects, WallpaperKind::DefaultProjects]
    {
        assert_eq!(WallpaperKind::from_name(kind.name()), Some(kind));
        assert_eq!(kind.to_string(), kind.name());
    }
    assert_eq!(WallpaperKind::Workshop.to_string(), "workshop");
    assert_eq!(WallpaperKind::MyProjects.to_string(), "myprojects");
    assert_eq!(WallpaperKind::DefaultProjects.to_string(), "defaultprojects");
    assert_eq!(WallpaperKind::from_name("Workshop"), None);
    assert_eq!(WallpaperKind::from_name(""), None);
}

#[test]
fn missing_workshop_item_is_content_not_found_and_skipping_moves_on() {
    let e = engine();
    let theme = ThemeWallpaperEngine {
        wallpapers: Some(vec![
            ThemeWEWallpaper { wallpaper: workshop("42"), monitor: 0 },
            ThemeWEWallpaper { wallpaper: workshop("43"), monitor: 1 },
        ]),
        playlist: None,
    };
    let steps = theme.apply(&e);
    assert_eq!(steps.len(), 2);
    assert_eq!(steps[0].success_message, "Applied wallpaper 42 from workshop on monitor 0");
    assert_eq!(steps[1].success_message, "Applied wallpaper 43 from workshop on monitor 1");

    // the first wallpaper is not there
    let first = steps[0].action.as_ref().unwrap();
    assert_eq!(first.begin(true).unwrap().args, first.command.args);
    assert!(matches!(first.begin(false), Err(EngineError::WallpaperNotFound(_, _))));
    let failure = first.conclude(Shown::FileMissing).unwrap_err();
    match &failure {
        EngineError::WallpaperNotFound(w, we) => {
            assert_eq!(w.id, "42");
            assert_eq!(w.kind, WallpaperKind::Workshop);
            assert_eq!(we.path, e.path);
        }
        other => panic!("{other:?}"),
    }
    let classed = Error::from(failure);
    match &classed {
        Error::HandledError(HandledErrorKind::WallpaperNotFound(err)) => {
            assert_eq!(err.to_string(), "Wallpaper 42 from workshop not found");
            assert_eq!(err.item(), "this wallpaper");
            assert_eq!(err.action(), "Install it from workshop");
            match err.handle() {
                Remedy::OpenAndWait { command, prompt } => {
                    assert_eq!(command.program, "cmd");
                    assert_eq!(command.args, ["/C", "start", "steam://url/CommunityFilePage/42"]);
                    assert_eq!(prompt, "Waiting for wallpaper installation press enter when done");
                }
                other => panic!("{other:?}"),
            }
        }
        other => panic!("{other:?}"),
    }
    // the user skips: the step is abandoned, nothing was run for monitor 0
    let state = Error::error_prone_step(Error::start_step::<()>(), StepEvent::Returned(Err(classed)));
    assert!(matches!(state, StepState::Offered(_)));
    let state = Error::error_prone_step(state, StepEvent::Picked(Some(0)));
    assert!(matches!(state, StepState::Abandoned));
    assert_eq!(state.finish().ok(), Some(None));

    // the next assignment is applied for itself
    let second = steps[1].action.as_ref().unwrap();
    assert_eq!(second.begin(true).unwrap().args[3], second.file);
    let next = second.conclude(Shown::Exited { success: true });
    let state = Error::error_prone_step(
        Error::start_step::<()>(),
        StepEvent::Returned(next.map_err(Error::from)),
    );
    assert_eq!(
        state.banner(Some(&steps[1].success_message)).map(|line| line.ends_with(
            " Applied wallpaper 43 from workshop on monitor 1"
        )),
        Some(true)
    );
    assert_eq!(state.finish().ok(), Some(Some(())));
}

#[test]
fn a_manager_that_fails_counts_as_not_installed() {
    let action = engine().set_wallpaper(&workshop("42"), 3);
    assert!(matches!(
        action.conclude(Shown::Exited { success: false }),
        Err(EngineError::WallpaperEngineNotInstalled)
    ));
    assert!(matches!(
        Error::from(EngineError::WallpaperEngineNotInstalled),
        Error::HandledError(HandledErrorKind::InstallationNotFound(_))
    ));
}

#[test]
fn theme_without_wallpapers_has_no_steps() {
    let none = ThemeWallpaperEngine { wallpapers: None, playlist: None };
    assert!(none.apply(&engine()).is_empty());
    let empty = ThemeWallpaperEngine { wallpapers: Some(vec![]), playlist: None };
    assert!(empty.apply(&engine()).is_empty());
}

fn user(entries: Vec<(u32, &str, bool)>) -> WallpaperEngineUserConfig {
    WallpaperEngineUserConfig {
        general: WallpaperEngineUserGeneralConfig {
            wallpaper_config: Some(UserWallpaperConfig {
                layout: 0,
                selected_wallpapers: entries
                    .into_iter()
                    .map(|(monitor, file, playlist)| {
                        (
                            UserWallpaperConfigMonitorId(monitor),
                            UserWallpaperConfigForMonitor {
                                file: file.to_string(),
                                playlist: if playlist {
                                    Some(serde_json::Value::Null)
                                } else {
                                    None
                                },
                            },
                        )
                    })
                    .collect(),
            }),
        },
    }
}

#[test]
fn wallpaper_from_its_project_file() {
    let w = Wallpaper::from_path("/lib/steamapps/workshop/content/431960/42/project.json")
        .unwrap();
    assert_eq!(w.id, "42");
    assert_eq!(w.kind, WallpaperKind::Workshop);
    assert_eq!(
        WallpaperKind::from_path("/install/projects/myprojects"),
        Some(WallpaperKind::MyProjects)
    );
    assert_eq!(
        WallpaperKind::from_path("/install/projects/defaultprojects"),
        Some(WallpaperKind::DefaultProjects)
    );
    assert_eq!(
        WallpaperKind::from_path("/lib/steamapps/workshop/content/431960"),
        Some(WallpaperKind::Workshop)
    );
    assert_eq!(WallpaperKind::from_path("/install/projects/other"), None);
    assert_eq!(WallpaperKind::from_path("/install/projects"), None);
    assert_eq!(WallpaperKind::from_path("/"), None);
    assert_eq!(WallpaperKind::from_path("/a/b\"c"), None);
    // the store is named by the folder that holds the wallpaper's folder
    let w = Wallpaper::from_path("C:/we/projects/myprojects/77/project.json").unwrap();
    assert_eq!(w.id, "77");
    assert_eq!(w.kind, WallpaperKind::MyProjects);
    let w = Wallpaper::from_path("/install/projects/defaultprojects/7/project.json").unwrap();
    assert_eq!(w.id, "7");
    assert_eq!(w.kind, WallpaperKind::DefaultProjects);
    assert!(Wallpaper::from_path("/install/myprojects/group/7/project.json").is_none());
    assert!(Wallpaper::from_path("/install/projects/other/7/project.json").is_none());
    assert!(Wallpaper::from_path("project.json").is_none());
}

#[test]
fn a_project_file_reads_back_as_its_wallpaper() {
    let local = WallpaperEngine::new_with_path("C:/we".to_string());
    for kind in [WallpaperKind::Workshop, WallpaperKind::MyProjects, WallpaperKind::DefaultProjects]
    {
        for app in [engine(), located()] {
            let wallpaper = Wallpaper { id: "77".to_string(), kind };
            let action = app.try_set_wallpaper(&wallpaper, 0).unwrap();
            let read = Wallpaper::from_path(&action.file).unwrap();
            assert_eq!(read.id, "77");
            assert_eq!(read.kind, kind);
        }
    }
    let file = local.get_local_wallpaper_path("77", "myprojects");
    assert_eq!(Path::new(&file), Path::new("C:/we/projects/myprojects/77/project.json"));
    let read = Wallpaper::from_path(&file).unwrap();
    assert_eq!((read.id.as_str(), read.kind), ("77", WallpaperKind::MyProjects));
}

#[test]
fn settings_that_name_something_twice_are_not_well_formed() {
    let file = "/lib/steamapps/workshop/content/431960/9/project.json";
    let twice = user(vec![(2, file, false), (0, file, false), (2, file, false)]);
    assert!(!twice.is_well_formed());
    let once = user(vec![(2, file, false), (0, file, false)]);
    assert!(once.is_well_formed());
    assert!(user(vec![]).is_well_formed());
    let nothing = WallpaperEngineUserConfig {
        general: WallpaperEngineUserGeneralConfig { wallpaper_config: None },
    };
    assert!(nothing.is_well_formed());

    let config = |names: [&str; 3], last: WallpaperEngineUserConfig| WallpaperEngineConfig {
        path: "C:/engine".to_string(),
        users: vec![
            (names[0].to_string(), user(vec![])),
            (names[1].to_string(), user(vec![(1, file, false)])),
            (names[2].to_string(), last),
        ],
    };
    assert!(config(["alice", "bob", "carol"], user(vec![])).is_well_formed());
    assert!(!config(["alice", "bob", "alice"], user(vec![])).is_well_formed());
    assert!(!config(["alice", "bob", "carol"], user(vec![(3, file, false), (3, file, false)]))
        .is_well_formed());
    // where a name stands twice, the first entry is the one found
    let doubled = config(["alice", "bob", "bob"], user(vec![]));
    let found = doubled.get_user_config("bob").unwrap();
    assert_eq!(found.general.wallpaper_config.as_ref().unwrap().selected_wallpapers.len(), 1);
}

#[test]
fn theme_from_the_settings() {
    let settings = user(vec![
        (1, "/lib/steamapps/workshop/content/431960/42/project.json", false),
        (0, "/lib/steamapps/workshop/content/431960/43/project.json", false),
    ]);
    let theme = ThemeWallpaperEngine::from_config(&settings).unwrap();
    assert!(theme.playlist.is_none());
    let wallpapers = theme.wallpapers.unwrap();
    assert_eq!(wallpapers.len(), 2);
    assert_eq!((wallpapers[0].wallpaper.id.as_str(), wallpapers[0].monitor), ("42", 1));
    assert_eq!((wallpapers[1].wallpaper.id.as_str(), wallpapers[1].monitor), ("43", 0));

    let theme = ThemeWallpaperEngine::from_config(&user(vec![])).unwrap();
    assert!(theme.wallpapers.is_none());
    assert!(theme.playlist.is_none());

    let with_playlist =
        user(vec![(0, "/lib/steamapps/workshop/content/431960/42/project.json", true)]);
    assert!(ThemeWallpaperEngine::from_config(&with_playlist).is_none());
    let local = user(vec![(3, "C:/we/projects/myprojects/77/project.json", false)]);
    let theme = ThemeWallpaperEngine::from_config(&local).unwrap();
    let wallpapers = theme.wallpapers.unwrap();
    assert_eq!(wallpapers[0].wallpaper.id, "77");
    assert_eq!(wallpapers[0].wallpaper.kind, WallpaperKind::MyProjects);
    assert_eq!(wallpapers[0].monitor, 3);
    let unknown_store = user(vec![(0, "/x/y/z/project.json", false)]);
    assert!(ThemeWallpaperEngine::from_config(&unknown_store).is_none());
    let nothing = WallpaperEngineUserConfig {
        general: WallpaperEngineUserGeneralConfig { wallpaper_config: None },
    };
    assert!(ThemeWallpaperEngine::from_config(&nothing).is_none());
}

#[test]
fn settings_of_the_current_user() {
    let config = WallpaperEngineConfig {
        path: "C:/engine".to_string(),
        users: vec![
            ("alice".to_string(), user(vec![])),
            (
                "bob".to_string(),
                user(vec![(2, "/lib/steamapps/workshop/content/431960/9/project.json", false)]),
            ),
        ],
    };
    assert!(config.get_user_config("bob").is_some());
    assert!(config.get_user_config("carol").is_none());
    let found = config.get_current_user_config(Some("/home/bob/Desktop")).unwrap();
    assert_eq!(found.general.wallpaper_config.as_ref().unwrap().selected_wallpapers.len(), 1);
    assert!(config.get_current_user_config(Some("/home/carol/Desktop")).is_none());
    assert!(config.get_current_user_config(Some("Desktop")).is_none());
    assert!(config.get_current_user_config(None).is_none());

    let theme = ThemeWallpaperEngine::get_current(&config, Some("/home/bob/Desktop")).unwrap();
    let wallpapers = theme.wallpapers.unwrap();
    assert_eq!(wallpapers[0].wallpaper.id, "9");
    assert_eq!(wallpapers[0].monitor, 2);
    assert!(ThemeWallpaperEngine::get_current(&config, Some("/home/alice/Desktop"))
        .unwrap()
        .wallpapers
        .is_none());
    assert!(ThemeWallpaperEngine::get_current(&config, None).is_none());
}
