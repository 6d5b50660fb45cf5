use p2m_server::codec::encode;
use p2m_server::error::{ErrorKind, StoreError};
use p2m_server::mesh::{
    find_obj, is_obj_name, on_opening, step, MeshAction, MeshError, MeshEvent, MeshState,
};
use p2m_server::raster::Image;
use p2m_server::store::ImageStore;

fn store() -> ImageStore {
    ImageStore::new("uploads".to_string())
}

fn photo() -> Vec<u8> {
    encode(&Image::new(2, 1, vec![1, 2, 3, 255, 4, 5, 6, 255]).unwrap()).unwrap()
}

fn names(list: &[&str]) -> Vec<String> {
    list.iter().map(|s| s.to_string()).collect()
}

fn refused(error: MeshError) -> (MeshState, MeshAction) {
    (MeshState::Done, MeshAction::Reply { outcome: Err(error) })
}

fn form(fields: Option<Vec<Vec<u8>>>) -> MeshEvent {
    MeshEvent::Form { parsed: true, fields }
}

#[test]
fn whole_flow_ends_with_the_path_of_the_mesh() {
    let store = store();
    let (state, action) = step(&store, MeshState::AwaitingForm, form(Some(vec![photo()])));
    assert_eq!(state, MeshState::Saving);
    assert_eq!(action, MeshAction::SaveInput { png: photo() });

    let (state, action) = step(&store, state, MeshEvent::Saved { ok: true });
    assert_eq!((&state, &action), (&MeshState::Running, &MeshAction::RunModel));

    let (state, action) = step(&store, state, MeshEvent::Ran { started: true });
    assert_eq!((&state, &action), (&MeshState::Listing, &MeshAction::ListOutput));

    let listed = names(&["log.txt", "0_mesh_chair.obj", "1_mesh_sofa.obj"]);
    let (state, action) = step(&store, state, MeshEvent::Listed { names: Some(listed) });
    assert_eq!(
        state,
        MeshState::Preparing { index: 1, target: "uploads/0_mesh_chair.obj".to_string() }
    );
    assert_eq!(action, MeshAction::PrepareUploads);

    let (state, action) = step(&store, state, MeshEvent::Prepared { ok: true });
    assert_eq!(state, MeshState::Moving { target: "uploads/0_mesh_chair.obj".to_string() });
    assert_eq!(
        action,
        MeshAction::MoveOutput { index: 1, target: "uploads/0_mesh_chair.obj".to_string() }
    );

    let (state, action) = step(&store, state, MeshEvent::Moved { ok: true });
    assert_eq!(state, MeshState::Cleaning { target: "uploads/0_mesh_chair.obj".to_string() });
    assert_eq!(action, MeshAction::CleanOutput);

    let (state, action) = step(&store, state, MeshEvent::Cleaned { ok: true });
    assert_eq!(state, MeshState::Done);
    assert_eq!(action, MeshAction::Reply { outcome: Ok("uploads/0_mesh_chair.obj".to_string()) });
}

#[test]
fn failed_cleaning_does_not_change_the_reply() {
    let state = MeshState::Cleaning { target: "uploads/a.obj".to_string() };
    let (state, action) = step(&store(), state, MeshEvent::Cleaned { ok: false });
    assert_eq!(state, MeshState::Done);
    assert_eq!(action, MeshAction::Reply { outcome: Ok("uploads/a.obj".to_string()) });
}

#[test]
fn form_is_checked_field_by_field() {
    let store = store();
    let unread = MeshEvent::Form { parsed: false, fields: Some(vec![photo()]) };
    assert_eq!(step(&store, MeshState::AwaitingForm, unread), refused(MeshError::ParseForm));
    assert_eq!(step(&store, MeshState::AwaitingForm, form(None)), refused(MeshError::MissingField));
    assert_eq!(
        step(&store, MeshState::AwaitingForm, form(Some(vec![]))),
        refused(MeshError::EmptyField)
    );
    assert_eq!(
        step(&store, MeshState::AwaitingForm, form(Some(vec![b"no image".to_vec()]))),
        refused(MeshError::DecodeImage)
    );
}

#[test]
fn only_the_first_field_counts() {
    let fields = Some(vec![photo(), b"no image".to_vec()]);
    let (state, _) = step(&store(), MeshState::AwaitingForm, form(fields));
    assert_eq!(state, MeshState::Saving);
    let fields = Some(vec![b"no image".to_vec(), photo()]);
    assert_eq!(
        step(&store(), MeshState::AwaitingForm, form(fields)),
        refused(MeshError::DecodeImage)
    );
}

#[test]
fn input_is_saved_as_png_whatever_came() {
    let fields = Some(vec![b"P3\n1 1\n255\n10 20 30\n".to_vec()]);
    let (_, action) = step(&store(), MeshState::AwaitingForm, form(fields));
    let expected = encode(&Image::new(1, 1, vec![10, 20, 30, 255]).unwrap()).unwrap();
    assert_eq!(action, MeshAction::SaveInput { png: expected });
}

#[test]
fn each_step_can_fail() {
    let store = store();
    assert_eq!(
        step(&store, MeshState::Saving, MeshEvent::Saved { ok: false }),
        refused(MeshError::SaveImage)
    );
    assert_eq!(
        step(&store, MeshState::Running, MeshEvent::Ran { started: false }),
        refused(MeshError::Generate)
    );
    assert_eq!(
        step(&store, MeshState::Listing, MeshEvent::Listed { names: None }),
        refused(MeshError::ReadDirectory)
    );
    assert_eq!(
        step(&store, MeshState::Listing, MeshEvent::Listed { names: Some(vec![]) }),
        refused(MeshError::NoObjFiles)
    );
    let listed = names(&["a.txt", "obj", ".obj", "b.OBJ", "c.obj.bak"]);
    assert_eq!(
        step(&store, MeshState::Listing, MeshEvent::Listed { names: Some(listed) }),
        refused(MeshError::NoObjFiles)
    );
    let waiting = MeshState::Preparing { index: 0, target: "uploads/a.obj".to_string() };
    assert_eq!(
        step(&store, waiting, MeshEvent::Prepared { ok: false }),
        refused(MeshError::CreateDirectory)
    );
    let moving = MeshState::Moving { target: "uploads/a.obj".to_string() };
    assert_eq!(step(&store, moving, MeshEvent::Moved { ok: false }), refused(MeshError::MoveFile));
}

#[test]
fn mesh_whose_name_leads_elsewhere_is_not_moved() {
    let listed = names(&["..\\..\\evil.obj"]);
    assert_eq!(
        step(&store(), MeshState::Listing, MeshEvent::Listed { names: Some(listed) }),
        refused(MeshError::MoveFile)
    );
}

#[test]
fn events_out_of_turn_end_the_flow() {
    let store = store();
    assert_eq!(
        step(&store, MeshState::AwaitingForm, MeshEvent::Saved { ok: true }),
        refused(MeshError::OutOfTurn)
    );
    assert_eq!(
        step(&store, MeshState::Saving, form(Some(vec![photo()]))),
        refused(MeshError::OutOfTurn)
    );
    assert_eq!(
        step(&store, MeshState::Done, MeshEvent::Cleaned { ok: true }),
        refused(MeshError::OutOfTurn)
    );
    assert_eq!(
        step(&store, MeshState::Running, MeshEvent::Moved { ok: true }),
        refused(MeshError::OutOfTurn)
    );
}

#[test]
fn mesh_names_end_in_obj() {
    for name in ["a.obj", "0_mesh.obj", "a.b.obj", "..obj", "\u{e9}.obj", " .obj"] {
        assert!(is_obj_name(name), "{:?}", name);
        assert_eq!(
            std::path::Path::new(name).extension().and_then(|e| e.to_str()),
            Some("obj"),
            "{:?}",
            name
        );
    }
    for name in ["", "obj", ".obj", "a.OBJ", "a.obj ", "a.objx", "aobj", "a.ob", "a.obj.txt", "a."] {
        assert!(!is_obj_name(name), "{:?}", name);
        assert_ne!(
            std::path::Path::new(name).extension().and_then(|e| e.to_str()),
            Some("obj"),
            "{:?}",
            name
        );
    }
}

#[test]
fn find_obj_takes_the_first() {
    assert_eq!(find_obj(&names(&["a.obj", "b.obj"])), Some(0));
    assert_eq!(find_obj(&names(&["a.txt", "b.obj", "c.obj"])), Some(1));
    assert_eq!(find_obj(&names(&["a.txt", "b.png", "c.obj"])), Some(2));
    assert_eq!(find_obj(&names(&["a.txt"])), None);
    assert_eq!(find_obj(&names(&[])), None);
}

#[test]
fn every_failure_has_its_message() {
    assert_eq!(MeshError::ParseForm.message(), "Error parsing form data");
    assert_eq!(MeshError::MissingField.message(), "File field is missing");
    assert_eq!(MeshError::EmptyField.message(), "File field is empty");
    assert_eq!(MeshError::DecodeImage.message(), "Failed to decode image");
    assert_eq!(MeshError::SaveImage.message(), "Failed to save image");
    assert_eq!(MeshError::Generate.message(), "Failed to generate obj");
    assert_eq!(MeshError::ReadDirectory.message(), "Failed to read directory");
    assert_eq!(MeshError::NoObjFiles.message(), "No .obj files found in the directory.");
    assert_eq!(MeshError::CreateDirectory.message(), "Fail to create output directory. ");
    assert_eq!(MeshError::MoveFile.message(), "Fail to move to ouput directory. ");
    assert_eq!(MeshError::OutOfTurn.message(), "Unexpected step");
}

#[test]
fn opening_decides_what_follows_the_form() {
    assert_eq!(on_opening(Err(StoreError::DecodeFailed)), refused(MeshError::DecodeImage));
    let image = Image::new(2, 1, vec![1, 2, 3, 255, 4, 5, 6, 255]).unwrap();
    assert_eq!(on_opening(Ok(image)), (MeshState::Saving, MeshAction::SaveInput { png: photo() }));
    let nothing = Image::new(0, 0, vec![]).unwrap();
    assert_eq!(on_opening(Ok(nothing)), refused(MeshError::SaveImage));
}

#[test]
fn every_failure_has_its_kind() {
    assert_eq!(MeshError::ParseForm.kind(), ErrorKind::MalformedRequest);
    assert_eq!(MeshError::MissingField.kind(), ErrorKind::MalformedRequest);
    assert_eq!(MeshError::EmptyField.kind(), ErrorKind::MalformedRequest);
    assert_eq!(MeshError::DecodeImage.kind(), ErrorKind::UnsupportedImageFormat);
    for error in [
        MeshError::SaveImage,
        MeshError::Generate,
        MeshError::ReadDirectory,
        MeshError::NoObjFiles,
        MeshError::CreateDirectory,
        MeshError::MoveFile,
        MeshError::OutOfTurn,
    ] {
        assert_eq!(error.kind(), ErrorKind::StorageIO);
        assert!(error.kind().is_server_fault());
    }
}
