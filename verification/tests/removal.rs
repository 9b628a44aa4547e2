use deltime::deletion::{next_step, DeleteProgress, DeleteStep, EntryKind, IoFailure};

fn done_err(message: &str) -> DeleteStep {
    DeleteStep::Done(Err(String::from(message)))
}

#[test]
fn removal_begins_with_the_existence_check() {
    assert_eq!(next_step("/tmp/a", None, DeleteProgress::Started), DeleteStep::CheckExists);
}

#[test]
fn missing_path_ends_the_removal() {
    assert_eq!(
        next_step("/tmp/a", None, DeleteProgress::Checked { exists: false }),
        done_err("Файл `/tmp/a` не найден")
    );
    assert_eq!(
        next_step("/tmp/a", None, DeleteProgress::Checked { exists: true }),
        DeleteStep::Inspect
    );
}

#[test]
fn metadata_decides_what_is_removed() {
    let mask = String::from("*.delme");
    let file = DeleteProgress::Inspected { kind: Some(EntryKind::File) };
    let directory = DeleteProgress::Inspected { kind: Some(EntryKind::Directory) };
    assert_eq!(next_step("/tmp/a", None, file), DeleteStep::RemoveFile);
    assert_eq!(next_step("/tmp/a", Some(&mask), file), DeleteStep::RemoveFile);
    assert_eq!(next_step("/tmp/a", None, directory), DeleteStep::RemoveTree);
    assert_eq!(
        next_step("/tmp/a", Some(&mask), directory),
        DeleteStep::ListMatching(String::from("*.delme"))
    );
    assert_eq!(
        next_step("/tmp/a", None, DeleteProgress::Inspected { kind: Some(EntryKind::Other) }),
        done_err("Ошибка получения метадаты")
    );
    assert_eq!(
        next_step("/tmp/a", Some(&mask), DeleteProgress::Inspected { kind: None }),
        done_err("Ошибка получения метадаты")
    );
}

#[test]
fn failures_of_a_removal_are_reported_by_kind() {
    let removed = |failure| next_step("/tmp/a", None, DeleteProgress::Removed { failure });
    assert_eq!(removed(None), DeleteStep::Done(Ok(())));
    assert_eq!(
        removed(Some(IoFailure::PermissionDenied)),
        done_err("Нет прав или файл `/tmp/a` занят другим приложением")
    );
    assert_eq!(
        removed(Some(IoFailure::ResourceBusy)),
        done_err("Нет прав или файл `/tmp/a` занят другим приложением")
    );
    assert_eq!(removed(Some(IoFailure::NotFound)), done_err("Файл `/tmp/a` не найден"));
    assert_eq!(removed(Some(IoFailure::Other)), DeleteStep::Done(Ok(())));
}

#[test]
fn listing_decides_whether_matching_files_go() {
    assert_eq!(
        next_step("/tmp/a", None, DeleteProgress::Listed { listed: true }),
        DeleteStep::RemoveListed
    );
    assert_eq!(
        next_step("/tmp/a", None, DeleteProgress::Listed { listed: false }),
        done_err("При операции c `/tmp/a` произошла ошибка")
    );
    assert_eq!(next_step("/tmp/a", None, DeleteProgress::Swept), DeleteStep::Done(Ok(())));
}
