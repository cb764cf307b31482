//! The list of conversations and the search in it.

use voice_sessions::conversation_list::{
    reaction_to, AIConversationId, AgentConversationsModelEvent, AmbientAgentTaskId,
    ConversationDirectory, ConversationListViewModel, ConversationOrTask, ConversationOrTaskId,
    ItemKey, MatchRequest, ModelReaction, SearchStep, TitleMatch,
};
use voice_sessions::session_scanner::{CLIAgent, DiscoveredCLIAgentSession, Timestamp};

fn session(id: &str, title: &str) -> DiscoveredCLIAgentSession {
    DiscoveredCLIAgentSession {
        id: format!("agent:{id}"),
        agent_type: CLIAgent::Claude,
        title: title.to_string(),
        session_id: id.to_string(),
        working_directory: None,
        last_updated: Timestamp { seconds: 0, nanos: 0 },
    }
}

fn task(id: u128, title: &str) -> ConversationOrTask {
    ConversationOrTask {
        key: ItemKey::Task(AmbientAgentTaskId(id)),
        title: title.to_string(),
        session_available: None,
        user_initiated: Some(true),
        manually_opened: false,
    }
}

fn conversation(id: u128, title: &str) -> ConversationOrTask {
    ConversationOrTask {
        key: ItemKey::Conversation(AIConversationId(id)),
        title: title.to_string(),
        session_available: None,
        user_initiated: Some(true),
        manually_opened: false,
    }
}

fn task_id(id: u128) -> ConversationOrTaskId {
    ConversationOrTaskId::TaskId(AmbientAgentTaskId(id))
}

fn conversation_id(id: u128) -> ConversationOrTaskId {
    ConversationOrTaskId::ConversationId(AIConversationId(id))
}

fn session_id(id: &str) -> ConversationOrTaskId {
    ConversationOrTaskId::CLIAgentSession {
        session_id: format!("agent:{id}"),
        agent_type: CLIAgent::Claude,
    }
}

fn directory() -> ConversationDirectory {
    ConversationDirectory {
        items: vec![task(1, "Fix login"), conversation(1, "Fix tests"), conversation(2, "Docs")],
    }
}

fn list() -> ConversationListViewModel {
    let items = directory().items;
    let (model, step) =
        ConversationListViewModel::new(Vec::new(), vec![session("a", "Fix a")], &items, &directory());
    assert!(matches!(step, SearchStep::Listed(_)));
    model
}

fn request(step: SearchStep) -> MatchRequest {
    match step {
        SearchStep::Match(request) => request,
        other => panic!("{other:?}"),
    }
}

fn found(score: i64, indices: &[usize]) -> Option<TitleMatch> {
    Some(TitleMatch { score, matched_indices: indices.to_vec() })
}

fn shown(model: &ConversationListViewModel) -> Vec<ConversationOrTaskId> {
    model.current_ids().into_iter().cloned().collect()
}

#[test]
fn sessions_stand_behind_conversations_and_tasks() {
    let model = list();
    assert_eq!(model.unfiltered_item_count(), 4);
    assert_eq!(
        shown(&model),
        vec![task_id(1), conversation_id(1), conversation_id(2), session_id("a")]
    );
    assert!(model.filtered_items().iter().all(|item| item.highlight_indices.is_empty()));
}

#[test]
fn only_available_items_that_the_user_wanted_are_listed() {
    let mut item = task(1, "T");
    assert!(item.is_listed());
    item.session_available = Some(false);
    assert!(!item.is_listed());
    item.session_available = Some(true);
    assert!(item.is_listed());
    item.user_initiated = Some(false);
    assert!(!item.is_listed());
    item.user_initiated = None;
    assert!(!item.is_listed());
    item.manually_opened = true;
    assert!(item.is_listed());
    let mut opened = conversation(1, "C");
    opened.user_initiated = None;
    opened.manually_opened = true;
    assert!(!opened.is_listed());
    assert_eq!(opened.list_id(), conversation_id(1));
}

#[test]
fn fresh_sessions_replace_others() {
    let items = Vec::new();
    let none = ConversationDirectory { items: Vec::new() };
    let known = vec![session("a", "A"), session("b", "B")];
    let (mut model, _) = ConversationListViewModel::new(known, Vec::new(), &items, &none);
    assert_eq!(shown(&model), vec![session_id("a"), session_id("b")]);
    model.refresh_cached_items(vec![session("a", "A"), session("c", "C")], &items, &none);
    assert_eq!(shown(&model), vec![session_id("a"), session_id("b")]);
    model.refresh_cached_items(vec![session("c", "C"), session("b", "B")], &items, &none);
    assert_eq!(shown(&model), vec![session_id("c"), session_id("b")]);
    model.refresh_cached_items(vec![session("c", "C")], &items, &none);
    assert_eq!(shown(&model), vec![session_id("c")]);
    model.refresh_cached_items(Vec::new(), &items, &none);
    assert_eq!(shown(&model), vec![session_id("c")]);
}

#[test]
fn searches_ask_for_matches_of_every_title() {
    let mut model = list();
    let request = request(model.set_search_query("  FIX Ä ".to_string(), &directory()));
    assert_eq!(request.term, "fix ä");
    let titles: Vec<Option<&str>> = request.titles.iter().map(|title| title.as_deref()).collect();
    assert_eq!(titles, vec![Some("Fix login"), Some("Fix tests"), Some("Docs"), Some("Fix a")]);
    assert_eq!(shown(&model).len(), 4);
}

#[test]
fn items_that_are_gone_have_no_title() {
    let mut model = list();
    let fewer = ConversationDirectory { items: vec![conversation(1, "Fix tests")] };
    let request = request(model.set_search_query("fix".to_string(), &fewer));
    assert_eq!(request.titles[0], None);
    assert_eq!(request.titles[1], Some("Fix tests".to_string()));
    let matches = vec![found(9, &[0]), found(1, &[1]), None, None];
    model.apply_search_filter(request, &matches);
    assert_eq!(shown(&model), vec![conversation_id(1)]);
}

#[test]
fn the_best_match_is_shown_first() {
    let mut model = list();
    let request = request(model.set_search_query("fix".to_string(), &directory()));
    let matches = vec![found(5, &[0, 1, 2]), found(7, &[0]), None, found(5, &[2])];
    model.apply_search_filter(request, &matches);
    assert_eq!(shown(&model), vec![conversation_id(1), task_id(1), session_id("a")]);
    assert_eq!(model.filtered_items()[1].highlight_indices, vec![0, 1, 2]);
    assert_eq!(model.filtered_items()[2].highlight_indices, vec![2]);
    assert_eq!(model.unfiltered_item_count(), 4);
}

#[test]
fn negative_scores_rank_last() {
    let mut model = list();
    let request = request(model.set_search_query("fix".to_string(), &directory()));
    let matches = vec![found(i64::MIN, &[]), found(-1, &[]), found(0, &[]), found(i64::MAX, &[])];
    model.apply_search_filter(request, &matches);
    assert_eq!(
        shown(&model),
        vec![session_id("a"), conversation_id(2), conversation_id(1), task_id(1)]
    );
}

#[test]
fn blank_queries_show_everything() {
    let mut model = list();
    let asked = request(model.set_search_query("fix".to_string(), &directory()));
    model.apply_search_filter(asked, &vec![None, None, None, None]);
    assert!(shown(&model).is_empty());
    let step = model.set_search_query(" \t ".to_string(), &directory());
    assert!(matches!(step, SearchStep::Listed(_)));
    assert_eq!(shown(&model).len(), 4);
}

#[test]
fn the_same_query_changes_nothing() {
    let mut model = list();
    assert!(matches!(model.set_search_query(String::new(), &directory()), SearchStep::Unchanged));
    let asked = request(model.set_search_query("fix".to_string(), &directory()));
    model.apply_search_filter(asked, &vec![found(1, &[]), None, None, None]);
    assert!(matches!(
        model.set_search_query("fix".to_string(), &directory()),
        SearchStep::Unchanged
    ));
    assert_eq!(shown(&model), vec![task_id(1)]);
}

#[test]
fn refreshing_repeats_the_search() {
    let mut model = list();
    let asked = request(model.set_search_query("docs".to_string(), &directory()));
    model.apply_search_filter(asked, &vec![None, None, found(1, &[]), None]);
    let items = vec![conversation(2, "Docs")];
    let asked = request(model.refresh_cached_items(Vec::new(), &items, &directory()));
    assert_eq!(asked.term, "docs");
    assert_eq!(asked.titles, vec![Some("Docs".to_string()), Some("Fix a".to_string())]);
}

#[test]
fn an_empty_term_searches_for_nothing() {
    let mut model = list();
    let items = model.items_for("q".to_string());
    let step = model.search_for(items, String::new(), &directory());
    assert!(matches!(step, SearchStep::Listed(_)));
    let same = model.set_search_query("q".to_string(), &directory());
    assert!(matches!(same, SearchStep::Unchanged));
    let items = model.items_for("r".to_string());
    assert_eq!(request(model.search_for(items, "x".to_string(), &directory())).term, "x");
}

#[test]
fn items_are_found_by_their_identifiers() {
    let model = list();
    let known = directory();
    assert_eq!(model.get_item_by_id(&task_id(1), &known).unwrap().title, "Fix login");
    assert_eq!(model.get_item_by_id(&conversation_id(1), &known).unwrap().title, "Fix tests");
    assert!(model.get_item_by_id(&task_id(2), &known).is_none());
    assert!(model.get_item_by_id(&session_id("a"), &known).is_none());
    assert_eq!(model.get_cli_agent_session(&session_id("a")).unwrap().title, "Fix a");
    assert!(model.get_cli_agent_session(&session_id("b")).is_none());
    assert!(model.get_cli_agent_session(&task_id(1)).is_none());
    assert_eq!(model.title(&session_id("a"), &known), Some("Fix a".to_string()));
    assert!(ConversationListViewModel::is_cli_agent_session(&session_id("b")));
    assert!(!ConversationListViewModel::is_cli_agent_session(&task_id(1)));
}

#[test]
fn shown_sessions_are_found_again() {
    let mut model = list();
    let known = directory();
    let asked = request(model.set_search_query("fix".to_string(), &known));
    let term = asked.term.clone();
    let all = asked.titles.iter().map(|_| found(1, &[0])).collect();
    model.apply_search_filter(asked, &all);
    let fresh = vec![session("b", "Fix b"), session("c", "Fix c")];
    let items = directory().items;
    let again = request(model.refresh_cached_items(fresh, &items, &known));
    assert_eq!(again.term, term);
    let matches = again.titles.iter().map(|_| found(1, &[0])).collect();
    assert_eq!(shown(&model).len(), 4);
    assert!(model.get_cli_agent_session(&session_id("a")).is_some());
    model.apply_search_filter(again, &matches);
    let ids = shown(&model);
    assert_eq!(ids.len(), 5);
    for id in ids {
        let is_session = ConversationListViewModel::is_cli_agent_session(&id);
        assert_eq!(model.get_cli_agent_session(&id).is_some(), is_session);
        assert_eq!(model.get_item_by_id(&id, &known).is_none(), is_session);
    }
}

#[test]
fn entries_are_cloned_whole() {
    let mut model = list();
    let asked = request(model.set_search_query("fix".to_string(), &directory()));
    model.apply_search_filter(asked, &vec![None, found(1, &[4, 2]), None, None]);
    let copy = model.filtered_items()[0].clone();
    assert_eq!(copy.id, conversation_id(1));
    assert_eq!(copy.highlight_indices, vec![4, 2]);
}

#[test]
fn identifiers_say_what_they_name() {
    assert_eq!(conversation_id(3).conversation_id(), Some(AIConversationId(3)));
    assert_eq!(conversation_id(3).task_id(), None);
    assert_eq!(task_id(3).task_id(), Some(AmbientAgentTaskId(3)));
    assert_eq!(task_id(3).conversation_id(), None);
    assert_eq!(session_id("a").conversation_id(), None);
    assert_eq!(session_id("a").task_id(), None);
}

#[test]
fn changes_are_reacted_to() {
    for event in [
        AgentConversationsModelEvent::ConversationsLoaded,
        AgentConversationsModelEvent::TasksUpdated,
        AgentConversationsModelEvent::TaskManuallyOpened,
    ] {
        assert_eq!(reaction_to(event), ModelReaction::Refresh);
    }
    assert_eq!(
        reaction_to(AgentConversationsModelEvent::ConversationUpdated),
        ModelReaction::Emit
    );
    assert_eq!(
        reaction_to(AgentConversationsModelEvent::ConversationArtifactsUpdated),
        ModelReaction::Ignore
    );
}

#[test]
fn a_search_without_its_matches_changes_nothing() {
    let mut model = list();
    request(model.set_search_query("fix".to_string(), &directory()));
    assert_eq!(shown(&model).len(), 4);
    assert_eq!(request(model.set_search_query("fix".to_string(), &directory())).term, "fix");
    let step = model.set_search_query(String::new(), &directory());
    assert!(matches!(step, SearchStep::Unchanged));
}
