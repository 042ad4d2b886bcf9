use labels::error::LabelsError;
use labels::github::{GitHub, Method, Reply, Request};
use labels::label::{Label, WireLabel};
use labels::reconcile::{Action, Phase, Run};

const BASE: &str = "https://api.github.com";
const LABELS: &str = "https://api.github.com/repos/octocat/site/labels";

fn client() -> GitHub {
    match GitHub::new(BASE.to_string(), Some("my-token".to_string())) {
        Ok(client) => client,
        Err(error) => panic!("no client: {}", error.message()),
    }
}

fn label(name: &str, color: &str, description: &str) -> Label {
    Label::new(name.to_string(), color.to_string(), description.to_string())
}

fn named(name: &str) -> (String, String, String) {
    (name.to_string(), String::new(), String::new())
}

fn update(desired: &[Label]) -> Run {
    client().update_labels(desired, "octocat", "site")
}

fn remove() -> Run {
    client().remove_labels("octocat", "site")
}

/// A repository in memory: its labels as (name, colour, description), and
/// the request at which it starts to answer with status 500, counted from 0.
struct Remote {
    labels: Vec<(String, String, String)>,
    breaks_at: Option<usize>,
    seen: Vec<String>,
}

impl Remote {
    fn holding(labels: Vec<(String, String, String)>) -> Remote {
        Remote { labels, breaks_at: None, seen: Vec::new() }
    }

    fn answer(&mut self, request: &Request) -> Reply {
        let line = match request.method {
            Method::Get => format!("GET {}", request.url),
            Method::Delete => format!("DELETE {}", request.url),
            Method::Post => match &request.body {
                Some(body) => format!("POST {} {}", request.url, body.name),
                None => format!("POST {}", request.url),
            },
        };
        self.seen.push(line);
        if self.breaks_at == Some(self.seen.len() - 1) {
            return Reply::Response { status: 500, labels: None };
        }
        match request.method {
            Method::Get => {
                let objects = self
                    .labels
                    .iter()
                    .map(|(name, color, description)| WireLabel {
                        name: name.clone(),
                        color: Some(color.clone()),
                        description: if description.is_empty() {
                            None
                        } else {
                            Some(description.clone())
                        },
                    })
                    .collect();
                Reply::Response { status: 200, labels: Some(objects) }
            }
            Method::Delete => {
                let name = request.url[LABELS.len() + 1..].to_string();
                if self.labels.iter().any(|held| held.0 == name) {
                    self.labels.retain(|held| held.0 != name);
                    Reply::Response { status: 204, labels: None }
                } else {
                    Reply::Response { status: 404, labels: None }
                }
            }
            Method::Post => {
                let body = match &request.body {
                    Some(body) => body,
                    None => return Reply::Response { status: 422, labels: None },
                };
                if self.labels.iter().any(|held| held.0 == body.name) {
                    return Reply::Response { status: 422, labels: None };
                }
                self.labels.push((
                    body.name.clone(),
                    body.color.clone().unwrap_or_default(),
                    body.description.clone().unwrap_or_default(),
                ));
                Reply::Response { status: 201, labels: None }
            }
        }
    }
}

/// Runs `run` against `remote` to its end.
fn drive(mut run: Run, remote: &mut Remote) -> Result<(), LabelsError> {
    for _ in 0..1000 {
        match run.action() {
            Action::Send(request) => {
                let reply = remote.answer(&request);
                run = run.step(&reply);
            }
            Action::Finish(result) => return result,
        }
    }
    panic!("the run did not end");
}

fn sent(run: &Run) -> Request {
    match run.action() {
        Action::Send(request) => request,
        Action::Finish(_) => panic!("the run is over"),
    }
}

fn finished(run: &Run) -> Result<(), LabelsError> {
    match run.action() {
        Action::Finish(result) => result,
        Action::Send(request) => panic!("the run goes on with {}", request.url),
    }
}

fn ok(status: u16) -> Reply {
    Reply::Response { status, labels: None }
}

fn listing(names: &[&str]) -> Reply {
    let objects = names
        .iter()
        .map(|name| WireLabel { name: name.to_string(), color: None, description: None })
        .collect();
    Reply::Response { status: 200, labels: Some(objects) }
}

#[test]
fn a_run_begins_with_the_listing() {
    let run = update(&[label("bug", "d73a4a", "")]);
    assert_eq!(run.phase(), Phase::Listing);
    let request = sent(&run);
    assert_eq!(request.method, Method::Get);
    assert_eq!(request.url, LABELS);
    assert_eq!(request.username, "my-token");
    assert_eq!(request.password, "x-oauth-basic");
    assert!(request.body.is_none());
}

#[test]
fn asking_for_the_action_twice_gives_the_same_request() {
    let run = update(&[]).step(&listing(&["a"]));
    assert_eq!(sent(&run).url, sent(&run).url);
    assert_eq!(run.phase(), Phase::Deleting(0));
}

#[test]
fn update_replaces_old_with_bug() {
    let desired = [label("bug", "d73a4a", "Something isn't working")];
    let mut remote = Remote::holding(vec![named("old")]);
    let result = drive(update(&desired), &mut remote);
    assert_eq!(result, Ok(()));
    assert_eq!(
        remote.seen,
        vec![
            format!("GET {}", LABELS),
            format!("DELETE {}/old", LABELS),
            format!("POST {} bug", LABELS),
        ]
    );
    assert_eq!(
        remote.labels,
        vec![("bug".to_string(), "d73a4a".to_string(), "Something isn't working".to_string())]
    );
}

#[test]
fn update_to_nothing_deletes_both_and_creates_none() {
    let mut remote = Remote::holding(vec![named("a"), named("b")]);
    let result = drive(update(&[]), &mut remote);
    assert_eq!(result, Ok(()));
    assert_eq!(
        remote.seen,
        vec![
            format!("GET {}", LABELS),
            format!("DELETE {}/a", LABELS),
            format!("DELETE {}/b", LABELS),
        ]
    );
    assert!(remote.labels.is_empty());
}

#[test]
fn update_of_an_empty_repository_creates_only() {
    let desired = [label("bug", "d73a4a", ""), label("docs", "0075ca", "Documentation")];
    let mut remote = Remote::holding(Vec::new());
    let result = drive(update(&desired), &mut remote);
    assert_eq!(result, Ok(()));
    assert_eq!(
        remote.seen,
        vec![
            format!("GET {}", LABELS),
            format!("POST {} bug", LABELS),
            format!("POST {} docs", LABELS),
        ]
    );
    assert_eq!(
        remote.labels,
        vec![
            ("bug".to_string(), "d73a4a".to_string(), String::new()),
            ("docs".to_string(), "0075ca".to_string(), "Documentation".to_string()),
        ]
    );
}

#[test]
fn update_of_nothing_to_nothing_only_lists() {
    let mut remote = Remote::holding(Vec::new());
    assert_eq!(drive(update(&[]), &mut remote), Ok(()));
    assert_eq!(remote.seen, vec![format!("GET {}", LABELS)]);
}

#[test]
fn update_leaves_the_declared_names_whatever_was_there() {
    let desired = [label("c", "1", ""), label("a", "2", ""), label("b", "3", "")];
    for before in [
        Vec::new(),
        vec![named("a")],
        vec![named("x"), named("y"), named("z")],
        vec![named("b"), named("a"), named("c")],
        vec![named("c"), named("q")],
    ] {
        let mut remote = Remote::holding(before);
        assert_eq!(drive(update(&desired), &mut remote), Ok(()));
        let mut names: Vec<&str> = remote.labels.iter().map(|held| held.0.as_str()).collect();
        names.sort();
        assert_eq!(names, vec!["a", "b", "c"]);
    }
}

#[test]
fn update_twice_ends_in_the_same_labels() {
    let desired = [label("bug", "d73a4a", "x"), label("docs", "0075ca", "y")];
    let mut remote = Remote::holding(vec![named("old")]);
    assert_eq!(drive(update(&desired), &mut remote), Ok(()));
    let after_first = remote.labels.clone();
    assert_eq!(drive(update(&desired), &mut remote), Ok(()));
    assert_eq!(remote.labels, after_first);
}

#[test]
fn update_deletes_in_listing_order_and_creates_in_declared_order() {
    let desired = [label("z", "", ""), label("m", "", ""), label("a", "", "")];
    let mut remote = Remote::holding(vec![named("q"), named("b"), named("k")]);
    assert_eq!(drive(update(&desired), &mut remote), Ok(()));
    assert_eq!(
        remote.seen,
        vec![
            format!("GET {}", LABELS),
            format!("DELETE {}/q", LABELS),
            format!("DELETE {}/b", LABELS),
            format!("DELETE {}/k", LABELS),
            format!("POST {} z", LABELS),
            format!("POST {} m", LABELS),
            format!("POST {} a", LABELS),
        ]
    );
}

#[test]
fn remove_deletes_each_label_once_and_creates_none() {
    let mut remote = Remote::holding(vec![named("a"), named("b"), named("c")]);
    assert_eq!(drive(remove(), &mut remote), Ok(()));
    assert_eq!(
        remote.seen,
        vec![
            format!("GET {}", LABELS),
            format!("DELETE {}/a", LABELS),
            format!("DELETE {}/b", LABELS),
            format!("DELETE {}/c", LABELS),
        ]
    );
    assert!(remote.labels.is_empty());
}

#[test]
fn remove_from_an_empty_repository_only_lists() {
    let mut remote = Remote::holding(Vec::new());
    assert_eq!(drive(remove(), &mut remote), Ok(()));
    assert_eq!(remote.seen, vec![format!("GET {}", LABELS)]);
    assert!(remote.labels.is_empty());
}

#[test]
fn remove_twice_is_remove_once() {
    let mut remote = Remote::holding(vec![named("a")]);
    assert_eq!(drive(remove(), &mut remote), Ok(()));
    assert_eq!(drive(remove(), &mut remote), Ok(()));
    assert!(remote.labels.is_empty());
    assert_eq!(remote.seen.len(), 3);
}

#[test]
fn failed_listing_sends_nothing_more() {
    let mut remote = Remote::holding(vec![named("a"), named("b")]);
    remote.breaks_at = Some(0);
    let desired = [label("bug", "", "")];
    assert_eq!(drive(update(&desired), &mut remote), Err(LabelsError::InvalidResponse));
    assert_eq!(remote.seen, vec![format!("GET {}", LABELS)]);
    assert_eq!(remote.labels, vec![named("a"), named("b")]);
}

#[test]
fn listing_answered_with_another_status_is_an_invalid_response() {
    for status in [201, 204, 301, 404, 500] {
        let run = update(&[label("bug", "", "")]).step(&ok(status));
        assert_eq!(run.phase(), Phase::Failed(LabelsError::InvalidResponse));
        assert_eq!(finished(&run), Err(LabelsError::InvalidResponse));
    }
}

#[test]
fn unreachable_listing_is_a_transport_error() {
    let run = update(&[label("bug", "", "")]).step(&Reply::Unreachable);
    assert_eq!(run.phase(), Phase::Failed(LabelsError::TransportError));
    assert_eq!(finished(&run), Err(LabelsError::TransportError));
}

#[test]
fn undecodable_listing_is_a_decode_error() {
    let run = remove().step(&ok(200));
    assert_eq!(run.phase(), Phase::Failed(LabelsError::DecodeError));
    assert_eq!(finished(&run), Err(LabelsError::DecodeError));
}

#[test]
fn second_deletion_failing_stops_the_update() {
    let mut remote = Remote::holding(vec![named("a"), named("b"), named("c")]);
    remote.breaks_at = Some(2);
    let desired = [label("bug", "", ""), label("docs", "", "")];
    assert_eq!(drive(update(&desired), &mut remote), Err(LabelsError::DeleteFailed));
    assert_eq!(
        remote.seen,
        vec![
            format!("GET {}", LABELS),
            format!("DELETE {}/a", LABELS),
            format!("DELETE {}/b", LABELS),
        ]
    );
    assert_eq!(remote.labels, vec![named("b"), named("c")]);
}

#[test]
fn first_deletion_failing_stops_the_update() {
    let mut remote = Remote::holding(vec![named("a"), named("b")]);
    remote.breaks_at = Some(1);
    assert_eq!(
        drive(update(&[label("bug", "", "")]), &mut remote),
        Err(LabelsError::DeleteFailed)
    );
    assert_eq!(remote.seen, vec![format!("GET {}", LABELS), format!("DELETE {}/a", LABELS)]);
}

#[test]
fn last_deletion_failing_stops_the_update() {
    let mut remote = Remote::holding(vec![named("a"), named("b")]);
    remote.breaks_at = Some(2);
    assert_eq!(
        drive(update(&[label("bug", "", "")]), &mut remote),
        Err(LabelsError::DeleteFailed)
    );
    assert_eq!(remote.seen.len(), 3);
    assert_eq!(remote.labels, vec![named("b")]);
}

#[test]
fn unreachable_deletion_is_a_failed_deletion() {
    let run = update(&[label("bug", "", "")]).step(&listing(&["a"])).step(&Reply::Unreachable);
    assert_eq!(run.phase(), Phase::Failed(LabelsError::DeleteFailed));
    assert_eq!(finished(&run), Err(LabelsError::DeleteFailed));
}

#[test]
fn deletion_answered_with_200_is_a_failed_deletion() {
    let run = remove().step(&listing(&["a"])).step(&ok(200));
    assert_eq!(finished(&run), Err(LabelsError::DeleteFailed));
}

#[test]
fn failed_deletion_stops_the_removal() {
    let mut remote = Remote::holding(vec![named("a"), named("b"), named("c")]);
    remote.breaks_at = Some(2);
    assert_eq!(drive(remove(), &mut remote), Err(LabelsError::DeleteFailed));
    assert_eq!(remote.seen.len(), 3);
    assert_eq!(remote.labels, vec![named("b"), named("c")]);
}

#[test]
fn failed_creation_stops_the_update() {
    let mut remote = Remote::holding(vec![named("old")]);
    remote.breaks_at = Some(3);
    let desired = [label("a", "", ""), label("b", "", ""), label("c", "", "")];
    assert_eq!(drive(update(&desired), &mut remote), Err(LabelsError::CreateFailed));
    assert_eq!(
        remote.seen,
        vec![
            format!("GET {}", LABELS),
            format!("DELETE {}/old", LABELS),
            format!("POST {} a", LABELS),
            format!("POST {} b", LABELS),
        ]
    );
    assert_eq!(remote.labels, vec![named("a")]);
}

#[test]
fn unreachable_creation_is_a_failed_creation() {
    let run = update(&[label("bug", "", "")]).step(&listing(&[])).step(&Reply::Unreachable);
    assert_eq!(run.phase(), Phase::Failed(LabelsError::CreateFailed));
}

#[test]
fn creation_answered_with_200_is_a_failed_creation() {
    let run = update(&[label("bug", "", "")]).step(&listing(&[])).step(&ok(200));
    assert_eq!(finished(&run), Err(LabelsError::CreateFailed));
}

#[test]
fn a_name_declared_twice_is_submitted_twice() {
    let desired = [label("bug", "1", ""), label("bug", "2", "")];
    let mut remote = Remote::holding(Vec::new());
    assert_eq!(drive(update(&desired), &mut remote), Err(LabelsError::CreateFailed));
    assert_eq!(
        remote.seen,
        vec![
            format!("GET {}", LABELS),
            format!("POST {} bug", LABELS),
            format!("POST {} bug", LABELS),
        ]
    );
    assert_eq!(remote.labels, vec![("bug".to_string(), "1".to_string(), String::new())]);
}

#[test]
fn phases_of_a_whole_update() {
    let desired = [label("x", "", ""), label("y", "", "")];
    let run = update(&desired);
    assert_eq!(run.phase(), Phase::Listing);
    let run = run.step(&listing(&["a", "b"]));
    assert_eq!(run.phase(), Phase::Deleting(0));
    assert_eq!(sent(&run).url, format!("{}/a", LABELS));
    let run = run.step(&ok(204));
    assert_eq!(run.phase(), Phase::Deleting(1));
    assert_eq!(sent(&run).method, Method::Delete);
    assert_eq!(sent(&run).url, format!("{}/b", LABELS));
    let run = run.step(&ok(204));
    assert_eq!(run.phase(), Phase::Creating(0));
    assert_eq!(sent(&run).method, Method::Post);
    assert_eq!(sent(&run).url, LABELS);
    assert_eq!(sent(&run).body.map(|body| body.name), Some("x".to_string()));
    let run = run.step(&ok(201));
    assert_eq!(run.phase(), Phase::Creating(1));
    assert_eq!(sent(&run).body.map(|body| body.name), Some("y".to_string()));
    let run = run.step(&ok(201));
    assert_eq!(run.phase(), Phase::Done);
    assert_eq!(finished(&run), Ok(()));
}

#[test]
fn a_run_that_is_done_stays_done() {
    let run = remove().step(&listing(&[]));
    assert_eq!(run.phase(), Phase::Done);
    let run = run.step(&ok(500)).step(&Reply::Unreachable).step(&listing(&["a"]));
    assert_eq!(run.phase(), Phase::Done);
    assert_eq!(finished(&run), Ok(()));
}

#[test]
fn a_run_that_failed_stays_failed() {
    let run = update(&[label("bug", "", "")]).step(&listing(&["a"])).step(&ok(500));
    assert_eq!(run.phase(), Phase::Failed(LabelsError::DeleteFailed));
    let run = run.step(&ok(204)).step(&ok(201)).step(&listing(&[]));
    assert_eq!(run.phase(), Phase::Failed(LabelsError::DeleteFailed));
    assert_eq!(finished(&run), Err(LabelsError::DeleteFailed));
}

#[test]
fn created_labels_carry_colour_and_description() {
    let run = update(&[label("bug", "d73a4a", "Something isn't working")]).step(&listing(&[]));
    let body = match sent(&run).body {
        Some(body) => body,
        None => panic!("a creation without a body"),
    };
    assert_eq!(body.name, "bug");
    assert_eq!(body.color, Some("d73a4a".to_string()));
    assert_eq!(body.description, Some("Something isn't working".to_string()));
}

#[test]
fn the_run_keeps_its_own_copy_of_the_declared_labels() {
    let mut desired = vec![label("bug", "", "")];
    let run = update(&desired);
    desired.clear();
    let run = run.step(&listing(&[]));
    assert_eq!(run.phase(), Phase::Creating(0));
}

#[test]
fn a_hundred_labels_are_each_deleted() {
    let names: Vec<String> = (0..100).map(|i| format!("label-{}", i)).collect();
    let mut remote = Remote::holding(names.iter().map(|name| named(name)).collect());
    assert_eq!(drive(remove(), &mut remote), Ok(()));
    assert_eq!(remote.seen.len(), 101);
    for (i, name) in names.iter().enumerate() {
        assert_eq!(remote.seen[i + 1], format!("DELETE {}/{}", LABELS, name));
    }
    assert!(remote.labels.is_empty());
}
