use ism_chat::transfers::{
    download_finished, upload_file_stream, upload_step, UploadEvent, UploadStep,
};

#[test]
fn upload_measures_then_opens() {
    match upload_step(Some("a.txt"), UploadEvent::Measured(Ok(42))) {
        UploadStep::Open { size } => assert_eq!(size, 42),
        other => panic!("{:?}", other),
    }
    match upload_step(Some("a.txt"), UploadEvent::Opened { size: 42, outcome: Ok(()) }) {
        UploadStep::Finish { answer } => assert_eq!(
            answer,
            Ok("Zakończono odczyt pliku (a.txt) o rozmiarze 42 bajtów.".to_string())
        ),
        other => panic!("{:?}", other),
    }
}

#[test]
fn upload_of_a_file_without_a_name() {
    match upload_step(None, UploadEvent::Opened { size: u64::MAX, outcome: Ok(()) }) {
        UploadStep::Finish { answer } => assert_eq!(
            answer,
            Ok(format!("Zakończono odczyt pliku (unknown) o rozmiarze {} bajtów.", u64::MAX))
        ),
        other => panic!("{:?}", other),
    }
}

#[test]
fn upload_failures_are_reported() {
    match upload_step(Some("a"), UploadEvent::Measured(Err("gone".to_string()))) {
        UploadStep::Finish { answer } => {
            assert_eq!(answer, Err("Błąd odczytu metadanych: gone".to_string()))
        }
        other => panic!("{:?}", other),
    }
    let event = UploadEvent::Opened { size: 1, outcome: Err("locked".to_string()) };
    match upload_step(Some("a"), event) {
        UploadStep::Finish { answer } => {
            assert_eq!(answer, Err("Błąd otwarcia pliku: locked".to_string()))
        }
        other => panic!("{:?}", other),
    }
}

#[test]
fn finished_download_is_announced() {
    let notice = download_finished(true, Some("a.pdf"), Some("/home/me/a.pdf")).unwrap();
    assert_eq!(notice.title, "Pobrano: a.pdf");
    assert_eq!(notice.body, "/home/me/a.pdf");
    let nameless = download_finished(true, None, None).unwrap();
    assert_eq!(nameless.title, "Pobrano: plik");
    assert_eq!(nameless.body, "");
}

#[test]
fn failed_download_is_not_announced() {
    assert!(download_finished(false, Some("a.pdf"), Some("/home/me/a.pdf")).is_none());
}

fn answer_for(path: &str) -> String {
    match upload_file_stream(path, UploadEvent::Opened { size: 7, outcome: Ok(()) }) {
        UploadStep::Finish { answer } => answer.unwrap(),
        other => panic!("{:?}", other),
    }
}

#[test]
fn uploaded_file_is_called_by_the_name_in_its_path() {
    let named = |name: &str| format!("Zakończono odczyt pliku ({}) o rozmiarze 7 bajtów.", name);
    assert_eq!(answer_for("notes"), named("notes"));
    assert_eq!(answer_for("/home/me/zdjęcie.png"), named("zdjęcie.png"));
    assert_eq!(answer_for("me/folder/"), named("folder"));
    assert_eq!(answer_for("me/folder/.//"), named("folder"));
    assert_eq!(answer_for("/a"), named("a"));
    assert_eq!(answer_for("./a b.txt"), named("a b.txt"));
    assert_eq!(answer_for("me//you/../.profile"), named(".profile"));
    assert_eq!(answer_for("me/..."), named("..."));
    assert_eq!(answer_for("me/a."), named("a."));
    assert_eq!(answer_for("me/a/."), named("a"));
    for nameless in ["", "/", ".", "./.", "/.", "..", "me/..", "me/../", "me/../."] {
        assert_eq!(answer_for(nameless), named("unknown"), "{:?}", nameless);
    }
}

#[test]
fn uploaded_path_goes_through_the_same_steps() {
    match upload_file_stream("me/a.txt", UploadEvent::Measured(Ok(42))) {
        UploadStep::Open { size } => assert_eq!(size, 42),
        other => panic!("{:?}", other),
    }
    match upload_file_stream("me/a.txt", UploadEvent::Measured(Err("gone".to_string()))) {
        UploadStep::Finish { answer } => {
            assert_eq!(answer, Err("Błąd odczytu metadanych: gone".to_string()))
        }
        other => panic!("{:?}", other),
    }
}
