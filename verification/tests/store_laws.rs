use actor_recipe::actor::ResourceActor;
use actor_recipe::entity::Entity;
use actor_recipe::error::FrameworkError;
use actor_recipe::user::{User, UserCreate, UserPatch};
use actor_recipe::View;
use std::sync::atomic::{AtomicU64, Ordering};
use std::sync::Arc;

/// An entity whose every hook can be made to fail.
#[derive(Clone, Debug, PartialEq)]
struct Note {
    id: String,
    text: String,
    locked: bool,
    revisions: u32,
}

#[derive(Debug)]
enum NoteAction {
    Lock,
    Unlock,
    Fail,
}

impl View for Note {
    type V = Note;

    fn view(&self) -> Note {
        self.clone()
    }
}

impl Entity for Note {
    type Id = String;
    type CreatePayload = String;
    type Patch = String;
    type Action = NoteAction;
    type ActionResult = bool;

    fn from_create(id: String, payload: String) -> Result<Self, String> {
        if payload.is_empty() {
            Err("empty note".to_string())
        } else {
            Ok(Note { id, text: payload, locked: false, revisions: 0 })
        }
    }

    fn on_create(&mut self) -> Result<(), String> {
        if self.text == "forbidden" {
            Err("forbidden text".to_string())
        } else {
            Ok(())
        }
    }

    fn on_update(&mut self, patch: String) -> Result<(), String> {
        self.revisions += 1;
        if self.locked {
            return Err("note is locked".to_string());
        }
        self.text = patch;
        Ok(())
    }

    fn on_delete(&self) -> Result<(), String> {
        if self.locked {
            Err("note is locked".to_string())
        } else {
            Ok(())
        }
    }

    fn handle_action(&mut self, action: NoteAction) -> Result<bool, String> {
        match action {
            NoteAction::Lock => {
                let changed = !self.locked;
                self.locked = true;
                Ok(changed)
            }
            NoteAction::Unlock => {
                let changed = self.locked;
                self.locked = false;
                Ok(changed)
            }
            NoteAction::Fail => Err("no such action".to_string()),
        }
    }

    fn duplicate(&self) -> Self {
        self.clone()
    }
}

fn counter(prefix: &'static str) -> impl Fn() -> String {
    let next = Arc::new(AtomicU64::new(1));
    move || format!("{}{}", prefix, next.fetch_add(1, Ordering::SeqCst))
}

fn alice() -> UserCreate {
    UserCreate { name: "Alice".to_string(), email: "alice@example.com".to_string() }
}

#[test]
fn create_then_get_returns_the_built_instance() {
    let (mut actor, _client) = ResourceActor::<User, _>::new(4, counter("u"));
    let id = actor.create(alice()).unwrap();
    assert_eq!(id, "u1");
    let found = actor.get(&id).unwrap();
    assert_eq!(
        found,
        Some(User {
            id: "u1".to_string(),
            name: "Alice".to_string(),
            email: "alice@example.com".to_string(),
        })
    );
    assert_eq!(actor.len(), 1);
}

#[test]
fn get_of_an_unknown_id_is_no_error() {
    let (actor, _client) = ResourceActor::<User, _>::new(4, counter("u"));
    assert_eq!(actor.get(&"nobody".to_string()), Ok(None));
    assert_eq!(actor.len(), 0);
}

#[test]
fn create_with_id_files_under_the_given_id() {
    let (mut actor, _client) = ResourceActor::<User, _>::new(4, counter("u"));
    let id = actor.create_with_id("chosen".to_string(), alice()).unwrap();
    assert_eq!(id, "chosen");
    assert_eq!(actor.get(&id).unwrap().unwrap().id, "chosen");
    // The generator was not asked: the next minted identifier is the first.
    assert_eq!(actor.create(alice()).unwrap(), "u1");
    assert_eq!(actor.len(), 2);
}

#[test]
fn create_with_a_used_id_replaces_the_instance() {
    let (mut actor, _client) = ResourceActor::<User, _>::new(4, counter("u"));
    actor.create_with_id("same".to_string(), alice()).unwrap();
    let bob = UserCreate { name: "Bob".to_string(), email: "bob@example.com".to_string() };
    actor.create_with_id("same".to_string(), bob).unwrap();
    assert_eq!(actor.len(), 1);
    assert_eq!(actor.get(&"same".to_string()).unwrap().unwrap().name, "Bob");
}

#[test]
fn successive_creates_return_distinct_ids() {
    let (mut actor, _client) = ResourceActor::<User, _>::new(4, counter("user_"));
    let mut ids = Vec::new();
    for _ in 0..20 {
        ids.push(actor.create(alice()).unwrap());
    }
    assert_eq!(ids[0], "user_1");
    assert_eq!(ids[19], "user_20");
    for i in 0..ids.len() {
        for j in 0..i {
            assert_ne!(ids[i], ids[j]);
        }
    }
    assert_eq!(actor.len(), 20);
}

#[test]
fn failed_from_create_leaves_no_trace() {
    let (mut actor, _client) = ResourceActor::<Note, _>::new(4, counter("n"));
    let reply = actor.create(String::new());
    assert_eq!(reply, Err(FrameworkError::Custom("empty note".to_string())));
    // The identifier that was minted for it holds nothing, and is not reused.
    assert_eq!(actor.get(&"n1".to_string()), Ok(None));
    assert_eq!(actor.len(), 0);
    assert_eq!(actor.create("kept".to_string()), Ok("n2".to_string()));
}

#[test]
fn failed_on_create_leaves_no_trace() {
    let (mut actor, _client) = ResourceActor::<Note, _>::new(4, counter("n"));
    let reply = actor.create("forbidden".to_string());
    assert_eq!(reply, Err(FrameworkError::Custom("forbidden text".to_string())));
    assert_eq!(actor.get(&"n1".to_string()), Ok(None));
    assert_eq!(actor.len(), 0);
}

#[test]
fn failed_create_with_a_used_id_keeps_the_old_instance() {
    let (mut actor, _client) = ResourceActor::<Note, _>::new(4, counter("n"));
    actor.create_with_id("x".to_string(), "first".to_string()).unwrap();
    let reply = actor.create_with_id("x".to_string(), String::new());
    assert_eq!(reply, Err(FrameworkError::Custom("empty note".to_string())));
    assert_eq!(actor.get(&"x".to_string()).unwrap().unwrap().text, "first");
}

#[test]
fn update_changes_the_instance_in_place() {
    let (mut actor, _client) = ResourceActor::<User, _>::new(4, counter("u"));
    let id = actor.create(alice()).unwrap();
    let patch = UserPatch { name: Some("Bob".to_string()), email: None };
    let updated = actor.update(&id, patch).unwrap();
    assert_eq!(updated.name, "Bob");
    assert_eq!(updated.email, "alice@example.com");
    assert_eq!(actor.get(&id).unwrap(), Some(updated));
}

#[test]
fn failed_update_keeps_what_the_hook_left() {
    let (mut actor, _client) = ResourceActor::<Note, _>::new(4, counter("n"));
    let id = actor.create("draft".to_string()).unwrap();
    assert_eq!(actor.perform_action(&id, NoteAction::Lock), Ok(true));
    let reply = actor.update(&id, "final".to_string());
    assert_eq!(reply, Err(FrameworkError::Custom("note is locked".to_string())));
    // No rollback: the revision count that the hook raised stays raised.
    let note = actor.get(&id).unwrap().unwrap();
    assert_eq!(note.text, "draft");
    assert_eq!(note.revisions, 1);
    assert!(note.locked);
}

#[test]
fn update_delete_and_action_on_an_unknown_id_are_not_found() {
    let (mut actor, _client) = ResourceActor::<Note, _>::new(4, counter("n"));
    actor.create("kept".to_string()).unwrap();
    let ghost = "n9".to_string();
    assert_eq!(
        actor.update(&ghost, "text".to_string()),
        Err(FrameworkError::NotFound("n9".to_string()))
    );
    assert_eq!(actor.delete(&ghost), Err(FrameworkError::NotFound("n9".to_string())));
    assert_eq!(
        actor.perform_action(&ghost, NoteAction::Lock),
        Err(FrameworkError::NotFound("n9".to_string()))
    );
    assert_eq!(actor.len(), 1);
    assert_eq!(actor.get(&"n1".to_string()).unwrap().unwrap().text, "kept");
}

#[test]
fn delete_removes_and_a_second_delete_is_not_found() {
    let (mut actor, _client) = ResourceActor::<User, _>::new(4, counter("u"));
    let id = actor.create(alice()).unwrap();
    let other = actor.create(alice()).unwrap();
    assert_eq!(actor.delete(&id), Ok(()));
    assert_eq!(actor.get(&id), Ok(None));
    assert_eq!(actor.delete(&id), Err(FrameworkError::NotFound("u1".to_string())));
    let patch = UserPatch { name: None, email: None };
    assert_eq!(actor.update(&id, patch), Err(FrameworkError::NotFound("u1".to_string())));
    assert_eq!(actor.perform_action(&id, ()), Err(FrameworkError::NotFound("u1".to_string())));
    // The other instance is untouched.
    assert_eq!(actor.get(&other).unwrap().unwrap().id, "u2");
    assert_eq!(actor.len(), 1);
}

#[test]
fn failed_delete_keeps_the_instance() {
    let (mut actor, _client) = ResourceActor::<Note, _>::new(4, counter("n"));
    let id = actor.create("draft".to_string()).unwrap();
    actor.perform_action(&id, NoteAction::Lock).unwrap();
    assert_eq!(actor.delete(&id), Err(FrameworkError::Custom("note is locked".to_string())));
    assert_eq!(actor.get(&id).unwrap().unwrap().text, "draft");
    assert_eq!(actor.perform_action(&id, NoteAction::Unlock), Ok(true));
    assert_eq!(actor.delete(&id), Ok(()));
    assert_eq!(actor.len(), 0);
}

#[test]
fn action_replies_with_the_handlers_result() {
    let (mut actor, _client) = ResourceActor::<Note, _>::new(4, counter("n"));
    let id = actor.create("draft".to_string()).unwrap();
    assert_eq!(actor.perform_action(&id, NoteAction::Lock), Ok(true));
    assert_eq!(actor.perform_action(&id, NoteAction::Lock), Ok(false));
    assert_eq!(
        actor.perform_action(&id, NoteAction::Fail),
        Err(FrameworkError::Custom("no such action".to_string()))
    );
    assert!(actor.get(&id).unwrap().unwrap().locked);
}

#[test]
fn removal_in_the_middle_keeps_every_other_instance() {
    let (mut actor, _client) = ResourceActor::<Note, _>::new(4, counter("n"));
    let ids: Vec<String> =
        (0..5).map(|i| actor.create(format!("note {}", i)).unwrap()).collect();
    assert_eq!(actor.delete(&ids[1]), Ok(()));
    assert_eq!(actor.delete(&ids[4]), Ok(()));
    assert_eq!(actor.len(), 3);
    assert_eq!(actor.get(&ids[0]).unwrap().unwrap().text, "note 0");
    assert_eq!(actor.get(&ids[1]), Ok(None));
    assert_eq!(actor.get(&ids[2]).unwrap().unwrap().text, "note 2");
    assert_eq!(actor.get(&ids[3]).unwrap().unwrap().text, "note 3");
    assert_eq!(actor.get(&ids[4]), Ok(None));
}
