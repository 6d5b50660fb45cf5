//! The upload that has a mesh reconstructed from an image.
//!
//! The reconstruction itself is the work of an outside program, and files
//! are read and written by the caller. What is decided between those steps
//! is decided here: the flow is a machine that is told what happened and
//! says what to do next, until it says what to reply.

use vstd::prelude::*;
use vstd::string::StringSliceAdditionalSpecFns;
use vstd::utf8::encode_utf8;
use crate::codec::{decode, encode, encoded};
use crate::error::{ErrorKind, StoreError};
use crate::raster::{Image, ImageView};
use crate::store::{is_safe_identifier, ImageStore};

verus! {

/// Why a mesh upload failed.
#[derive(Clone, Copy, Debug, PartialEq, Eq, Structural)]
pub enum MeshError {
    /// The request body is no multipart form.
    ParseForm,
    /// The form has no field named `file`.
    MissingField,
    /// The field named `file` holds nothing.
    EmptyField,
    /// The field holds no image.
    DecodeImage,
    /// The input image could not be encoded or written.
    SaveImage,
    /// The reconstruction could not be started.
    Generate,
    /// The output directory could not be read.
    ReadDirectory,
    /// The reconstruction left no mesh.
    NoObjFiles,
    /// The directory of the store could not be made.
    CreateDirectory,
    /// The mesh could not be moved into the store.
    MoveFile,
    /// The machine was told of something it had not asked for.
    OutOfTurn,
}

/// The message that goes with each failure.
pub open spec fn message_of(error: MeshError) -> Seq<char> {
    match error {
        MeshError::ParseForm => "Error parsing form data"@,
        MeshError::MissingField => "File field is missing"@,
        MeshError::EmptyField => "File field is empty"@,
        MeshError::DecodeImage => "Failed to decode image"@,
        MeshError::SaveImage => "Failed to save image"@,
        MeshError::Generate => "Failed to generate obj"@,
        MeshError::ReadDirectory => "Failed to read directory"@,
        MeshError::NoObjFiles => "No .obj files found in the directory."@,
        MeshError::CreateDirectory => "Fail to create output directory. "@,
        MeshError::MoveFile => "Fail to move to ouput directory. "@,
        MeshError::OutOfTurn => "Unexpected step"@,
    }
}

/// The kind of each failure: what the caller sent is to blame for a form
/// that cannot be used, and the server for every step after it.
pub open spec fn kind_of_mesh(error: MeshError) -> ErrorKind {
    match error {
        MeshError::ParseForm => ErrorKind::MalformedRequest,
        MeshError::MissingField => ErrorKind::MalformedRequest,
        MeshError::EmptyField => ErrorKind::MalformedRequest,
        MeshError::DecodeImage => ErrorKind::UnsupportedImageFormat,
        _ => ErrorKind::StorageIO,
    }
}

impl MeshError {
    /// The kind under which the failure is reported.
    pub fn kind(self) -> (kind: ErrorKind)
        ensures
            kind == kind_of_mesh(self),
    {
        match self {
            MeshError::ParseForm => ErrorKind::MalformedRequest,
            MeshError::MissingField => ErrorKind::MalformedRequest,
            MeshError::EmptyField => ErrorKind::MalformedRequest,
            MeshError::DecodeImage => ErrorKind::UnsupportedImageFormat,
            _ => ErrorKind::StorageIO,
        }
    }

    /// The message to answer with.
    pub fn message(self) -> (text: &'static str)
        ensures
            text@ == message_of(self),
    {
        match self {
            MeshError::ParseForm => "Error parsing form data",
            MeshError::MissingField => "File field is missing",
            MeshError::EmptyField => "File field is empty",
            MeshError::DecodeImage => "Failed to decode image",
            MeshError::SaveImage => "Failed to save image",
            MeshError::Generate => "Failed to generate obj",
            MeshError::ReadDirectory => "Failed to read directory",
            MeshError::NoObjFiles => "No .obj files found in the directory.",
            MeshError::CreateDirectory => "Fail to create output directory. ",
            MeshError::MoveFile => "Fail to move to ouput directory. ",
            MeshError::OutOfTurn => "Unexpected step",
        }
    }
}

/// Where a mesh upload stands.
#[derive(Debug, PartialEq, Eq)]
pub enum MeshState {
    /// Waiting for the form of the request.
    AwaitingForm,
    /// The input image is being written.
    Saving,
    /// The reconstruction is running.
    Running,
    /// The output directory is being listed.
    Listing,
    /// The directory of the store is being made; the mesh is entry `index`
    /// of the listing and will go to `target`.
    Preparing { index: usize, target: String },
    /// The mesh is being moved to `target`.
    Moving { target: String },
    /// The output directory is being removed; the mesh is at `target`.
    Cleaning { target: String },
    /// The reply has been given.
    Done,
}

/// What happened, as the caller reports it.
#[derive(Debug, PartialEq, Eq)]
pub enum MeshEvent {
    /// The request body was read: whether it is a form, and the contents
    /// of its fields named `file`, `None` where it has none.
    Form { parsed: bool, fields: Option<Vec<Vec<u8>>> },
    /// The input image was written, or could not be.
    Saved { ok: bool },
    /// The reconstruction was run, or could not be started.
    Ran { started: bool },
    /// The output directory was listed: the names of its entries, `None`
    /// where it could not be read.
    Listed { names: Option<Vec<String>> },
    /// The directory of the store is there, or could not be made.
    Prepared { ok: bool },
    /// The mesh was moved, or could not be.
    Moved { ok: bool },
    /// The output directory was removed, or could not be.
    Cleaned { ok: bool },
}

/// What the caller is to do next.
#[derive(Debug, PartialEq, Eq)]
pub enum MeshAction {
    /// Write these bytes as the input image of the reconstruction.
    SaveInput { png: Vec<u8> },
    /// Run the reconstruction.
    RunModel,
    /// List the output directory.
    ListOutput,
    /// Make the directory of the store, unless it is there.
    PrepareUploads,
    /// Move entry `index` of the listing to `target`.
    MoveOutput { index: usize, target: String },
    /// Remove the output directory.
    CleanOutput,
    /// Answer the request: with the path of the mesh, or with a failure.
    Reply { outcome: Result<String, MeshError> },
}

/// A state as a mathematical value.
pub enum MeshStateView {
    AwaitingForm,
    Saving,
    Running,
    Listing,
    Preparing { index: nat, target: Seq<char> },
    Moving { target: Seq<char> },
    Cleaning { target: Seq<char> },
    Done,
}

/// An action as a mathematical value.
pub enum MeshActionView {
    SaveInput { png: Seq<u8> },
    RunModel,
    ListOutput,
    PrepareUploads,
    MoveOutput { index: nat, target: Seq<char> },
    CleanOutput,
    Reply { outcome: Result<Seq<char>, MeshError> },
}

impl View for MeshState {
    type V = MeshStateView;

    open spec fn view(&self) -> MeshStateView {
        match *self {
            MeshState::AwaitingForm => MeshStateView::AwaitingForm,
            MeshState::Saving => MeshStateView::Saving,
            MeshState::Running => MeshStateView::Running,
            MeshState::Listing => MeshStateView::Listing,
            MeshState::Preparing { index, target } => MeshStateView::Preparing {
                index: index as nat,
                target: target@,
            },
            MeshState::Moving { target } => MeshStateView::Moving { target: target@ },
            MeshState::Cleaning { target } => MeshStateView::Cleaning { target: target@ },
            MeshState::Done => MeshStateView::Done,
        }
    }
}

impl View for MeshAction {
    type V = MeshActionView;

    open spec fn view(&self) -> MeshActionView {
        match *self {
            MeshAction::SaveInput { png } => MeshActionView::SaveInput { png: png@ },
            MeshAction::RunModel => MeshActionView::RunModel,
            MeshAction::ListOutput => MeshActionView::ListOutput,
            MeshAction::PrepareUploads => MeshActionView::PrepareUploads,
            MeshAction::MoveOutput { index, target } => MeshActionView::MoveOutput {
                index: index as nat,
                target: target@,
            },
            MeshAction::CleanOutput => MeshActionView::CleanOutput,
            MeshAction::Reply { outcome } => MeshActionView::Reply {
                outcome: match outcome {
                    Ok(path) => Ok(path@),
                    Err(error) => Err(error),
                },
            },
        }
    }
}

/// Whether the bytes of a file name end in `.obj` after at least one other
/// byte: whether the file's extension is `obj`.
pub open spec fn has_obj_extension(name: Seq<u8>) -> bool {
    let n = name.len() as int;
    &&& n > 4
    &&& name[n - 4] == 46
    &&& name[n - 3] == 111
    &&& name[n - 2] == 98
    &&& name[n - 1] == 106
}

/// Whether the name is that of a mesh.
pub open spec fn is_obj(name: String) -> bool {
    has_obj_extension(encode_utf8(name@))
}

/// Whether entry `i` is the first of the listing that is a mesh.
pub open spec fn is_first_obj(names: Seq<String>, i: int) -> bool {
    &&& 0 <= i < names.len()
    &&& is_obj(names[i])
    &&& forall|j: int| 0 <= j < i ==> !is_obj(#[trigger] names[j])
}

/// The first entry of the listing that is a mesh, if there is one.
pub open spec fn first_obj(names: Seq<String>) -> Option<int> {
    if exists|i: int| is_first_obj(names, i) {
        Some(choose|i: int| is_first_obj(names, i))
    } else {
        None
    }
}

/// The end of the flow with a failure.
pub open spec fn refused(error: MeshError) -> (MeshStateView, MeshActionView) {
    (MeshStateView::Done, MeshActionView::Reply { outcome: Err(error) })
}

/// Why the form is turned down before its file is looked into, if it is.
pub open spec fn form_failure(parsed: bool, fields: Option<Vec<Vec<u8>>>) -> Option<MeshError> {
    if !parsed {
        Some(MeshError::ParseForm)
    } else {
        match fields {
            None => Some(MeshError::MissingField),
            Some(found) => if found@.len() == 0 {
                Some(MeshError::EmptyField)
            } else {
                None
            },
        }
    }
}

/// Whether the step looks into the file of the form.
pub open spec fn opens_file(state: MeshStateView, event: MeshEvent) -> bool {
    state is AwaitingForm && (event matches MeshEvent::Form { parsed, fields } && form_failure(
        parsed,
        fields,
    ) is None)
}

/// What follows the decoding of the first field named `file`: what the
/// decoder made no image of ends the flow; an image is encoded as PNG, to
/// be written as the input of the reconstruction.
pub open spec fn after_opening(opened: Option<ImageView>) -> (MeshStateView, MeshActionView) {
    match opened {
        None => refused(MeshError::DecodeImage),
        Some(v) => match encoded(v) {
            None => refused(MeshError::SaveImage),
            Some(png) => (MeshStateView::Saving, MeshActionView::SaveInput { png }),
        },
    }
}

/// What follows the form, where `opened` is what the decoder made of its
/// first field named `file`.
pub open spec fn after_form(parsed: bool, fields: Option<Vec<Vec<u8>>>, opened: Option<ImageView>)
    -> (MeshStateView, MeshActionView) {
    match form_failure(parsed, fields) {
        Some(error) => refused(error),
        None => after_opening(opened),
    }
}

/// What follows the listing: the first mesh of it is to go into the store
/// at `root`, under its own name.
pub open spec fn after_listing(root: Seq<char>, names: Option<Vec<String>>) -> (
    MeshStateView,
    MeshActionView,
) {
    match names {
        None => refused(MeshError::ReadDirectory),
        Some(listed) => match first_obj(listed@) {
            None => refused(MeshError::NoObjFiles),
            Some(i) => if is_safe_identifier(encode_utf8(listed@[i]@)) {
                (
                    MeshStateView::Preparing {
                        index: i as nat,
                        target: root + "/"@ + listed@[i]@,
                    },
                    MeshActionView::PrepareUploads,
                )
            } else {
                refused(MeshError::MoveFile)
            },
        },
    }
}

/// The transition of the machine whose store is at `root`: the state that
/// follows, and what the caller is to do. An event that the state did not
/// ask for ends the flow. `opened` is what the decoder makes of the file of
/// the form, and counts only in a step that looks into it.
pub open spec fn next(
    root: Seq<char>,
    state: MeshStateView,
    event: MeshEvent,
    opened: Option<ImageView>,
) -> (MeshStateView, MeshActionView) {
    match (state, event) {
        (MeshStateView::AwaitingForm, MeshEvent::Form { parsed, fields }) => after_form(
            parsed,
            fields,
            opened,
        ),
        (MeshStateView::Saving, MeshEvent::Saved { ok }) => if ok {
            (MeshStateView::Running, MeshActionView::RunModel)
        } else {
            refused(MeshError::SaveImage)
        },
        (MeshStateView::Running, MeshEvent::Ran { started }) => if started {
            (MeshStateView::Listing, MeshActionView::ListOutput)
        } else {
            refused(MeshError::Generate)
        },
        (MeshStateView::Listing, MeshEvent::Listed { names }) => after_listing(root, names),
        (MeshStateView::Preparing { index, target }, MeshEvent::Prepared { ok }) => if ok {
            (MeshStateView::Moving { target }, MeshActionView::MoveOutput { index, target })
        } else {
            refused(MeshError::CreateDirectory)
        },
        (MeshStateView::Moving { target }, MeshEvent::Moved { ok }) => if ok {
            (MeshStateView::Cleaning { target }, MeshActionView::CleanOutput)
        } else {
            refused(MeshError::MoveFile)
        },
        (MeshStateView::Cleaning { target }, MeshEvent::Cleaned { ok }) => (
            MeshStateView::Done,
            MeshActionView::Reply { outcome: Ok(target) },
        ),
        _ => refused(MeshError::OutOfTurn),
    }
}

/// A listing has at most one first mesh.
pub proof fn lemma_first_obj_is_unique(names: Seq<String>, i: int)
    requires
        is_first_obj(names, i),
    ensures
        first_obj(names) == Some(i),
{
    let c = choose|c: int| is_first_obj(names, c);
    assert(is_first_obj(names, c));
    if c < i {
        assert(!is_obj(names[c]));
    }
    if i < c {
        assert(!is_obj(names[i]));
    }
}

/// Whether the file name ends in `.obj` after at least one other byte.
pub fn is_obj_name(name: &str) -> (yes: bool)
    ensures
        yes == has_obj_extension(name.spec_bytes()),
{
    let bytes = name.as_bytes();
    let n = bytes.len();
    n > 4 && bytes[n - 4] == 46 && bytes[n - 3] == 111 && bytes[n - 2] == 98 && bytes[n - 1]
        == 106
}

/// Finds the first entry of the listing that is a mesh.
pub fn find_obj(names: &Vec<String>) -> (found: Option<usize>)
    ensures
        match found {
            Some(i) => first_obj(names@) == Some(i as int),
            None => first_obj(names@) is None,
        },
{
    let mut i: usize = 0;
    while i < names.len()
        invariant
            i <= names@.len(),
            forall|j: int| 0 <= j < i ==> !is_obj(#[trigger] names@[j]),
        decreases names@.len() - i,
    {
        if is_obj_name(names[i].as_str()) {
            proof {
                lemma_first_obj_is_unique(names@, i as int);
            }
            return Some(i);
        }
        i += 1;
    }
    assert forall|k: int| !is_first_obj(names@, k) by {
        if 0 <= k < names@.len() {
            assert(!is_obj(names@[k]));
        }
    }
    None
}

fn refuse(error: MeshError) -> (step: (MeshState, MeshAction))
    ensures
        (step.0@, step.1@) == refused(error),
{
    (MeshState::Done, MeshAction::Reply { outcome: Err(error) })
}

/// What follows the decoding of the file of the form, for each outcome
/// of the decoder.
pub fn on_opening(opened: Result<Image, StoreError>) -> (step: (MeshState, MeshAction))
    ensures
        (step.0@, step.1@) == after_opening(
            match opened {
                Ok(image) => Some(image@),
                Err(_) => None,
            },
        ),
{
    let image = match opened {
        Ok(image) => image,
        Err(_) => {
            return refuse(MeshError::DecodeImage);
        },
    };
    match encode(&image) {
        Ok(png) => (MeshState::Saving, MeshAction::SaveInput { png }),
        Err(_) => refuse(MeshError::SaveImage),
    }
}

fn on_form(parsed: bool, fields: &Option<Vec<Vec<u8>>>) -> (step: (MeshState, MeshAction))
    ensures
        exists|opened: Option<ImageView>|
            (step.0@, step.1@) == #[trigger] after_form(parsed, *fields, opened),
        form_failure(parsed, *fields) is Some ==> (step.0@, step.1@) == after_form(
            parsed,
            *fields,
            None,
        ),
{
    if !parsed {
        let step = refuse(MeshError::ParseForm);
        assert((step.0@, step.1@) == after_form(parsed, *fields, None));
        return step;
    }
    let found = match fields {
        Some(found) => found,
        None => {
            let step = refuse(MeshError::MissingField);
            assert((step.0@, step.1@) == after_form(parsed, *fields, None));
            return step;
        },
    };
    if found.len() == 0 {
        let step = refuse(MeshError::EmptyField);
        assert((step.0@, step.1@) == after_form(parsed, *fields, None));
        return step;
    }
    let opened = decode(found[0].as_slice());
    let ghost cause = opened;
    let ghost seen: Option<ImageView> = match cause {
        Ok(image) => Some(image@),
        Err(_) => None,
    };
    let step = on_opening(opened);
    assert((step.0@, step.1@) == after_form(parsed, *fields, seen));
    step
}

fn on_listing(store: &ImageStore, names: &Option<Vec<String>>) -> (step: (MeshState, MeshAction))
    ensures
        (step.0@, step.1@) == after_listing(store@, *names),
{
    let listed = match names {
        Some(listed) => listed,
        None => {
            return refuse(MeshError::ReadDirectory);
        },
    };
    let index = match find_obj(listed) {
        Some(index) => index,
        None => {
            return refuse(MeshError::NoObjFiles);
        },
    };
    match store.path_of(listed[index].as_str()) {
        Ok(target) => (MeshState::Preparing { index, target }, MeshAction::PrepareUploads),
        Err(_) => refuse(MeshError::MoveFile),
    }
}

/// Takes the machine one step on: from the state it is in and what the
/// caller reports, to the state that follows and what the caller is to do
/// next. The flow begins in `AwaitingForm` and is over once the action is
/// `Reply`. Only the step that looks into the file of the form depends on
/// anything but its arguments: on what the decoder makes of that file, as
/// `on_opening` says.
pub fn step(store: &ImageStore, state: MeshState, event: MeshEvent) -> (result: (
    MeshState,
    MeshAction,
))
    ensures
        exists|opened: Option<ImageView>|
            (result.0@, result.1@) == #[trigger] next(store@, state@, event, opened),
        !opens_file(state@, event) ==> (result.0@, result.1@) == next(
            store@,
            state@,
            event,
            None,
        ),
{
    if let (MeshState::AwaitingForm, MeshEvent::Form { parsed, fields }) = (&state, &event) {
        let step = on_form(*parsed, fields);
        proof {
            let opened = choose|opened: Option<ImageView>|
                (step.0@, step.1@) == #[trigger] after_form(*parsed, *fields, opened);
            assert((step.0@, step.1@) == next(store@, state@, event, opened));
        }
        return step;
    }
    let ghost before = state@;
    let ghost told = event;
    let result = match (state, event) {
        (MeshState::Saving, MeshEvent::Saved { ok }) => if ok {
            (MeshState::Running, MeshAction::RunModel)
        } else {
            refuse(MeshError::SaveImage)
        },
        (MeshState::Running, MeshEvent::Ran { started }) => if started {
            (MeshState::Listing, MeshAction::ListOutput)
        } else {
            refuse(MeshError::Generate)
        },
        (MeshState::Listing, MeshEvent::Listed { names }) => on_listing(store, &names),
        (MeshState::Preparing { index, target }, MeshEvent::Prepared { ok }) => if ok {
            let to = target.clone();
            (MeshState::Moving { target }, MeshAction::MoveOutput { index, target: to })
        } else {
            refuse(MeshError::CreateDirectory)
        },
        (MeshState::Moving { target }, MeshEvent::Moved { ok }) => if ok {
            (MeshState::Cleaning { target }, MeshAction::CleanOutput)
        } else {
            refuse(MeshError::MoveFile)
        },
        (MeshState::Cleaning { target }, MeshEvent::Cleaned { ok }) => (
            MeshState::Done,
            MeshAction::Reply { outcome: Ok(target) },
        ),
        _ => refuse(MeshError::OutOfTurn),
    };
    assert((result.0@, result.1@) == next(store@, before, told, None));
    result
}

} // verus!
