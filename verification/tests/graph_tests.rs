use abx::errors::AbxError;
use abx::graph::{MediaGraph, PlayState, Stage, StreamKind};
use abx::registry::SourceRegistry;
use abx::AudioSource;

#[test]
fn build_creates_reader_decoder_and_muted_gate() {
    let mut graph = MediaGraph::new(2);
    let src = AudioSource::new("song.flac".to_string(), &mut graph).unwrap();
    assert_eq!(src.path, "song.flac");
    assert_eq!(src.reader, 0);
    assert_eq!(src.decoder, 1);
    assert_eq!(src.gate, 0);
    assert_eq!(graph.stages.len(), 2);
    assert!(matches!(&graph.stages[0], Stage::Reader { path } if path == "song.flac"));
    assert!(matches!(graph.stages[1], Stage::Decoder));
    assert_eq!(graph.links.len(), 1);
    assert_eq!(graph.links[0].from, 0);
    assert_eq!(graph.links[0].to, 1);
    assert_eq!(graph.mixer_inputs.len(), 1);
    assert!(graph.mixer_inputs[0].muted);
    assert!(!graph.mixer_inputs[0].linked);
    assert_eq!(graph.mixer_inputs[0].decoder, 1);
    assert_eq!(graph.state, PlayState::Stopped);
}

#[test]
fn build_rejects_empty_path_and_leaves_graph_alone() {
    let mut graph = MediaGraph::new(2);
    let r = AudioSource::new(String::new(), &mut graph);
    assert!(matches!(r, Err(AbxError::ConfigurationError)));
    assert_eq!(graph.stages.len(), 0);
    assert_eq!(graph.mixer_inputs.len(), 0);
}

#[test]
fn build_fails_when_mixer_has_no_room() {
    let mut graph = MediaGraph::new(1);
    AudioSource::new("a.flac".to_string(), &mut graph).unwrap();
    let r = AudioSource::new("b.flac".to_string(), &mut graph);
    assert!(matches!(r, Err(AbxError::ResourceExhausted)));
    assert_eq!(graph.stages.len(), 2);
    assert_eq!(graph.mixer_inputs.len(), 1);
}

#[test]
fn mute_and_unmute_flip_only_the_gate() {
    let mut graph = MediaGraph::new(2);
    let a = AudioSource::new("a.flac".to_string(), &mut graph).unwrap();
    let b = AudioSource::new("b.flac".to_string(), &mut graph).unwrap();
    a.unmute(&mut graph).unwrap();
    assert!(!graph.mixer_inputs[a.gate].muted);
    assert!(graph.mixer_inputs[b.gate].muted);
    a.mute(&mut graph).unwrap();
    assert!(graph.mixer_inputs[a.gate].muted);
}

#[test]
fn stale_gate_handle_is_an_engine_error() {
    let mut graph = MediaGraph::new(2);
    let src = AudioSource::new("a.flac".to_string(), &mut graph).unwrap();
    let mut other = MediaGraph::new(0);
    assert_eq!(src.mute(&mut other), Err(AbxError::EngineError));
    assert_eq!(src.unmute(&mut other), Err(AbxError::EngineError));
    assert_eq!(other.mixer_inputs.len(), 0);
}

#[test]
fn degraded_select_leaves_zero_open_gates() {
    // a registry whose second source carries a stale handle: closing the old
    // gate succeeds, opening the new one fails, and the registry ends quiet
    let mut graph = MediaGraph::new(2);
    let a = AudioSource::new("a.flac".to_string(), &mut graph).unwrap();
    let broken = AudioSource { path: "b.flac".to_string(), reader: 0, decoder: 1, gate: 9 };
    let a_gate = a.gate;
    let mut registry = SourceRegistry { sources: vec![a, broken], selected: 0 };
    graph.set_gate(a_gate, false).unwrap();
    assert!(!graph.mixer_inputs[a_gate].muted);
    let r = registry.select(&mut graph, 1);
    assert_eq!(r, Err(AbxError::EngineError));
    assert_eq!(registry.selected, 0);
    assert!(graph.mixer_inputs[a_gate].muted);
}

#[test]
fn link_ready_links_only_the_first_audio_stream() {
    let mut graph = MediaGraph::new(2);
    let src = AudioSource::new("a.flac".to_string(), &mut graph).unwrap();
    graph.link_ready(src.gate, StreamKind::Video).unwrap();
    assert!(!graph.mixer_inputs[src.gate].linked);
    graph.link_ready(src.gate, StreamKind::Audio).unwrap();
    assert!(graph.mixer_inputs[src.gate].linked);
    graph.link_ready(src.gate, StreamKind::Audio).unwrap();
    assert!(graph.mixer_inputs[src.gate].linked);
    assert_eq!(graph.link_ready(7, StreamKind::Audio), Err(AbxError::LinkFailure));
}

#[test]
fn connect_rejects_unknown_stages() {
    let mut graph = MediaGraph::new(1);
    assert_eq!(graph.connect(0, 1), Err(AbxError::ConfigurationError));
    let id = graph.add_stage(Stage::Decoder);
    assert_eq!(graph.connect(id, id + 1), Err(AbxError::ConfigurationError));
}

#[test]
fn registry_select_on_empty_is_out_of_range() {
    let mut graph = MediaGraph::new(1);
    let mut registry = SourceRegistry::new();
    assert_eq!(registry.select(&mut graph, 0), Err(AbxError::IndexOutOfRange));
    assert_eq!(registry.next(&mut graph), Err(AbxError::EmptyRegistry));
}
