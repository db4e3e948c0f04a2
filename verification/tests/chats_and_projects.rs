use grok_desktop::chats::{
    append_message, chat_file_name, chat_markdown, check_new_message, check_saved_message,
    export_chat_markdown, new_chat, select_chats, ChatMessage, ChatSession, Timestamp,
};
use grok_desktop::config::{
    default_models, get_models, paths_equal, project_folder_name, save_settings,
    temp_images_override, validate_id, AppSettings,
};
use grok_desktop::projects::{
    add_or_update_project, detect_project_type, remove_project, set_project_archived,
    set_project_pinned, touch_project, update_project_notes, ProjectMarkers, ProjectStore,
};

const CHAT: &str = "019f5829-8992-7622-8c5d-72e56c32e489";
const MSG: &str = "019f5829-8992-7622-8c5d-72e56c32e48a";

fn at(secs: i64) -> Timestamp {
    Timestamp::new(secs, 0).expect("instant in range")
}

fn message(id: &str, role: &str, content: &str, images: Vec<String>, when: i64) -> ChatMessage {
    ChatMessage {
        id: id.into(),
        role: role.into(),
        content: content.into(),
        images,
        timestamp: at(when),
        status: None,
    }
}

#[test]
fn markdown_export_preserves_messages_and_safe_attachment_names() {
    // 2026-07-12T10:30:00Z
    let now = 1_783_852_200;
    let session = ChatSession {
        id: CHAT.into(),
        project_id: None,
        title: "Export\nDemo".into(),
        created_at: at(now),
        updated_at: at(now),
        messages: vec![message(
            MSG,
            "user",
            "Please review this.",
            vec![r"C:\managed\report.md".into()],
            now,
        )],
    };

    let markdown = chat_markdown(&session);
    assert!(markdown.starts_with("# Export Demo\n"));
    assert!(markdown.contains("## You\n\nPlease review this."));
    assert!(markdown.contains("- `report.md`"));
    assert!(!markdown.contains(r"C:\managed"));
    assert!(markdown.contains("- Created: 2026-07-12T10:30:00+00:00"));
    assert_eq!(
        export_chat_markdown(&session, "/tmp/x.txt").err().as_deref(),
        Some("Chat exports must use a .md extension")
    );
    assert_eq!(export_chat_markdown(&session, "/tmp/x.md").ok(), Some(markdown));
}

#[test]
fn chats_are_created_and_appended() {
    let chat = new_chat(CHAT.into(), None, None, &at(10)).expect("new chat");
    assert_eq!(chat.title, "New Chat");
    assert!(new_chat("../x".into(), None, None, &at(10)).is_err());
    assert_eq!(chat_file_name(CHAT).as_deref(), Ok(&*format!("{CHAT}.json")));

    let role = check_new_message(CHAT, MSG, "User", "hi", 0).expect("valid message");
    assert_eq!(role, "user");
    assert_eq!(check_new_message(CHAT, MSG, "robot", "hi", 0).err().as_deref(), Some("Invalid message role"));
    assert!(check_new_message(CHAT, "not-a-uuid", "user", "hi", 0).is_err());
    assert_eq!(check_new_message(CHAT, MSG, "user", "hi", 17).err().as_deref(), Some("Too many attachments"));

    let first = message(MSG, "user", "  Summarise the release notes for version two please, thanks  ", vec![], 20);
    let chat = append_message(chat, first, &at(20)).expect("appended");
    assert_eq!(chat.messages.len(), 1);
    assert_eq!(chat.title, "  Summarise the release notes for version two pl");
    assert_eq!(chat.updated_at.secs(), 20);
    let again = message(MSG, "user", "duplicate", vec![], 30);
    let retried = append_message(chat, again, &at(30)).expect("retry");
    assert_eq!(retried.messages.len(), 1);
    assert_eq!(retried.updated_at.secs(), 20);
}

#[test]
fn saved_chats_are_checked_message_by_message() {
    let ok = message(MSG, "assistant", "done", vec![], 1);
    assert_eq!(check_saved_message(&ok, 10), Ok(14));
    let bad = message(MSG, "robot", "x", vec![], 1);
    assert_eq!(check_saved_message(&bad, 0).err().as_deref(), Some("Invalid message role"));
}

#[test]
fn chat_listing_is_newest_first_per_project() {
    let mk = |id: &str, project: Option<&str>, updated: i64| ChatSession {
        id: id.into(),
        project_id: project.map(str::to_string),
        title: id.into(),
        created_at: at(0),
        updated_at: at(updated),
        messages: Vec::new(),
    };
    let chats = vec![mk("a", None, 5), mk("b", Some("p"), 9), mk("c", None, 7), mk("d", None, 5)];
    let global: Vec<String> = select_chats(chats, None).into_iter().map(|c| c.id).collect();
    assert_eq!(global, ["c", "a", "d"]);
}

#[test]
fn ids_and_paths() {
    assert!(validate_id(CHAT, "chat").is_ok());
    assert_eq!(validate_id("", "chat").err().as_deref(), Some("Invalid chat id"));
    assert_eq!(
        validate_id("x/y", "project").err().as_deref(),
        Some("Invalid project id (expected UUID-like characters only)")
    );
    assert!(paths_equal(r"C:\Work\App", "c:/work/app", true));
    assert!(!paths_equal(r"C:\Work\App", "c:/work/app", false));
    assert_eq!(default_models(), ["grok-4.5", "grok-composer-2.5-fast"]);
    assert_eq!(get_models().models.len(), 2);
}

#[test]
fn settings_are_checked_and_trimmed() {
    let saved = save_settings(AppSettings {
        tools: "  read  ".into(),
        max_turns: " 12 ".into(),
        ..AppSettings::default()
    })
    .expect("valid settings");
    assert_eq!(saved.tools, "read");
    assert_eq!(saved.max_turns, "12");
    let again = save_settings(AppSettings { ..saved }).expect("saved settings stay valid");
    assert_eq!(again.tools, "read");
    let bad = |s: AppSettings| save_settings(s).err().unwrap();
    assert_eq!(bad(AppSettings { default_model: " ".into(), ..AppSettings::default() }), "Invalid default model");
    assert_eq!(bad(AppSettings { reasoning_effort: "max".into(), ..AppSettings::default() }), "Invalid reasoning effort");
    assert_eq!(bad(AppSettings { permission_mode: "root".into(), ..AppSettings::default() }), "Invalid permission mode");
    assert_eq!(bad(AppSettings { max_turns: "x".into(), ..AppSettings::default() }), "Max turns must be a number");
    assert_eq!(bad(AppSettings { max_turns: "201".into(), ..AppSettings::default() }), "Max turns must be between 1 and 200");
    assert_eq!(bad(AppSettings { deny_rules: "a\nb".into(), ..AppSettings::default() }), "Invalid deny rules value");
    assert_eq!(bad(AppSettings { extra_rules: "a\0".into(), ..AppSettings::default() }), "Invalid extra rules value");
    assert_eq!(temp_images_override("  ").unwrap(), None);
    assert_eq!(temp_images_override(" /x/imgs ").unwrap().as_deref(), Some("/x/imgs"));
    assert!(temp_images_override("/x/../y").is_err());
}

#[test]
fn project_folder_names_are_checked() {
    assert_eq!(project_folder_name(" Demo Project ").as_deref(), Ok("Demo Project"));
    assert!(project_folder_name("../escape").is_err());
    assert!(project_folder_name("CON").is_err());
    assert!(project_folder_name("con.txt").is_err());
    assert!(project_folder_name("name.").is_err());
    assert!(project_folder_name("..").is_err());
    assert!(project_folder_name("").is_err());
    assert!(project_folder_name("COM10").is_ok());
}

#[test]
fn projects_are_managed() {
    let mut store = ProjectStore { projects: Vec::new() };
    let added = add_or_update_project(&mut store, "/w/app", None, "Rust", None, &at(1), "id-1".into(), false);
    assert_eq!(added.name, "app");
    assert_eq!(store.projects.len(), 1);
    let again = add_or_update_project(&mut store, "/w/app", Some("App".into()), "Rust", None, &at(2), "id-2".into(), false);
    assert_eq!(again.id, "id-1");
    assert_eq!(again.name, "App");
    assert_eq!(store.projects.len(), 1);
    set_project_pinned(&mut store, "id-1", true).unwrap();
    assert!(store.projects[0].pinned);
    set_project_archived(&mut store, "id-1", true).unwrap();
    assert!(store.projects[0].archived && !store.projects[0].pinned);
    assert_eq!(set_project_pinned(&mut store, "nope", true).err().as_deref(), Some("Project not found: nope"));
    update_project_notes(&mut store, "id-1", "  notes  ").unwrap();
    assert_eq!(store.projects[0].notes, "notes");
    assert!(touch_project(&mut store, "id-1", Some(CHAT.into()), &at(5), None, "Rust".into()));
    assert_eq!(store.projects[0].last_chat_id.as_deref(), Some(CHAT));
    remove_project(&mut store, "id-1");
    assert!(store.projects.is_empty());
    let markers = ProjectMarkers {
        tauri_conf_json: false,
        src_tauri: false,
        package_json: false,
        cargo_toml: true,
        pyproject_toml: false,
        requirements_txt: false,
        go_mod: false,
        deno_json: false,
        deno_jsonc: false,
        git: true,
    };
    assert_eq!(detect_project_type(&markers), "Rust");
}

#[test]
fn windows_folders_are_listed_once_whatever_the_case_or_separator() {
    let mut store = ProjectStore { projects: Vec::new() };
    add_or_update_project(&mut store, "C:\\Work\\App", None, "Rust", None, &at(1), "id-1".into(), true);
    let again = add_or_update_project(&mut store, "c:/work/app", None, "Rust", None, &at(2), "id-2".into(), true);
    assert_eq!(store.projects.len(), 1);
    assert_eq!(again.id, "id-1");
    assert_eq!(store.projects[0].path, "c:/work/app");
    add_or_update_project(&mut store, "c:/work/other", None, "Folder", None, &at(3), "id-3".into(), true);
    assert_eq!(store.projects.len(), 2);
}
