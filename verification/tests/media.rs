use std::collections::BTreeSet;

use emu_studio::media::tui::{
    body_height, build_tui_tree, footer_text, line_color, row_text, stream_keys, KeyOutcome, LineColor,
    PacketReport, ReportOverview, StreamOverview, TreeKey, TreeState,
};
use emu_studio::media::{
    catalog_counts, display_optional_count, find_parent_index, flatten_tree, is_media_file, media_extension,
    media_type_name, new_node, primary_format, sort_counts, tally, to_u32, to_u64, truncate_for_width,
    AVMediaType, FlatLine, MediaType, NameCount, TreeNode,
};

#[test]
fn converts_signed_numbers_to_options() {
    assert_eq!(to_u64(123), Some(123));
    assert_eq!(to_u64(0), None);
    assert_eq!(to_u64(-1), None);
    assert_eq!(to_u32(48_000), Some(48_000));
    assert_eq!(to_u32(0), None);
    assert_eq!(to_u32(-1), None);
}

#[test]
fn test_media_type_conversion() {
    assert_eq!(MediaType::from(AVMediaType::Video), MediaType::Video);
    assert_eq!(MediaType::from(AVMediaType::Audio), MediaType::Audio);
}

#[test]
fn media_type_conversion_maps_the_rest() {
    assert_eq!(MediaType::from(AVMediaType::Data), MediaType::Data);
    assert_eq!(MediaType::from(AVMediaType::Subtitle), MediaType::Subtitle);
    assert_eq!(MediaType::from(AVMediaType::Attachment), MediaType::Attachment);
    assert_eq!(MediaType::from(AVMediaType::Unknown), MediaType::Unknown);
    assert_eq!(MediaType::from(AVMediaType::Nb), MediaType::Unknown);
}

#[test]
fn names_media_types() {
    assert_eq!(media_type_name(MediaType::Video), "video");
    assert_eq!(media_type_name(MediaType::Attachment), "attachment");
    assert_eq!(media_type_name(MediaType::Unknown), "unknown");
}

#[test]
fn displays_optional_counts() {
    assert_eq!(display_optional_count(Some(42)), "42");
    assert_eq!(display_optional_count(Some(0)), "0");
    assert_eq!(display_optional_count(None), "unknown");
}

#[test]
fn truncates_text_to_width() {
    assert_eq!(truncate_for_width("hello", 0), "");
    assert_eq!(truncate_for_width("hello", 5), "hello");
    assert_eq!(truncate_for_width("hello", 10), "hello");
    assert_eq!(truncate_for_width("hello", 3), "...");
    assert_eq!(truncate_for_width("hello", 2), "..");
    assert_eq!(truncate_for_width("hello world", 8), "hello...");
    assert_eq!(truncate_for_width("äöüßéè", 5), "äö...");
}

#[test]
fn recognises_media_extensions() {
    assert!(media_extension(&Some("mp4".to_string())));
    assert!(media_extension(&Some("MKV".to_string())));
    assert!(media_extension(&Some("Opus".to_string())));
    assert!(!media_extension(&Some("txt".to_string())));
    assert!(!media_extension(&None));
    assert!(is_media_file("clips/a.MOV"));
    assert!(is_media_file("song.flac"));
    assert!(!is_media_file("notes.txt"));
    assert!(!is_media_file("README"));
}

#[test]
fn takes_the_primary_format_name() {
    assert_eq!(primary_format("mov,mp4,m4a,3gp,3g2,mj2"), "mov");
    assert_eq!(primary_format(" matroska ,webm"), "matroska");
    assert_eq!(primary_format("wav"), "wav");
    assert_eq!(primary_format(""), "");
}

#[test]
fn tallies_names() {
    let names = vec!["aac".to_string(), "h264".to_string(), "aac".to_string()];
    let counts = tally(&names);
    assert_eq!(counts.len(), 2);
    assert_eq!(counts[0].name, "aac");
    assert_eq!(counts[0].count, 2);
    assert_eq!(counts[1].name, "h264");
    assert_eq!(counts[1].count, 1);
}

#[test]
fn sorts_counts_by_count_then_name() {
    let counts = vec![
        NameCount { name: "vp9".to_string(), count: 1 },
        NameCount { name: "aac".to_string(), count: 1 },
        NameCount { name: "h264".to_string(), count: 3 },
    ];
    let sorted = sort_counts(counts);
    let names: Vec<&str> = sorted.iter().map(|c| c.name.as_str()).collect();
    assert_eq!(names, vec!["h264", "aac", "vp9"]);
}

#[test]
fn catalog_counts_orders_by_count_then_name() {
    let formats = vec![Some("mov,mp4,m4a,3gp,3g2,mj2".to_string()), Some("matroska,webm".to_string())];
    let codecs = vec![Some("h264".to_string()), Some("aac".to_string()), Some("vp9".to_string())];
    let (containers, codec_counts) = catalog_counts(&formats, &codecs);
    assert_eq!(containers.len(), 2);
    assert_eq!(containers[0].name, "matroska");
    assert_eq!(containers[0].count, 1);
    assert_eq!(containers[1].name, "mov");
    assert_eq!(codec_counts.len(), 3);
    assert_eq!(codec_counts[0].name, "aac");
    assert_eq!(codec_counts[0].count, 1);
}

#[test]
fn catalog_counts_skip_missing_names() {
    let formats = vec![Some("mp3".to_string()), None, Some("mp3".to_string())];
    let codecs = vec![None, Some("mp3".to_string())];
    let (containers, codec_counts) = catalog_counts(&formats, &codecs);
    assert_eq!(containers.len(), 1);
    assert_eq!(containers[0].name, "mp3");
    assert_eq!(containers[0].count, 2);
    assert_eq!(codec_counts.len(), 1);
    assert_eq!(codec_counts[0].count, 1);
}

fn line(node_id: usize, label: &str, depth: usize, has_children: bool, expanded: bool) -> FlatLine {
    FlatLine { node_id, label: label.to_string(), depth, has_children, expanded }
}

#[test]
fn finds_the_parent_line() {
    let lines = vec![
        line(9, "file", 0, true, true),
        line(3, "container", 1, true, true),
        line(0, "format: mp4", 2, false, false),
        line(1, "size: 1 KB", 2, false, false),
        line(8, "streams (0)", 1, false, false),
    ];
    assert_eq!(find_parent_index(&lines, 3), Some(1));
    assert_eq!(find_parent_index(&lines, 4), Some(0));
    assert_eq!(find_parent_index(&lines, 0), None);
    assert_eq!(find_parent_index(&lines, 7), None);
}

fn sample_tree() -> TreeNode {
    let mut next = 0usize;
    let a = new_node(&mut next, "format: mp4".to_string(), Vec::new());
    let b = new_node(&mut next, "size: 1 KB".to_string(), Vec::new());
    let container = new_node(&mut next, "container".to_string(), vec![a, b]);
    let streams = new_node(&mut next, "streams (0)".to_string(), Vec::new());
    new_node(&mut next, "file a.mp4".to_string(), vec![container, streams])
}

#[test]
fn numbers_new_nodes_in_order() {
    let tree = sample_tree();
    assert_eq!(tree.id, 4);
    assert_eq!(tree.children[0].id, 2);
    assert_eq!(tree.children[0].children[1].id, 1);
    assert_eq!(tree.children[1].id, 3);
}

#[test]
fn flattens_only_expanded_nodes() {
    let tree = sample_tree();
    let mut expanded = BTreeSet::new();
    expanded.insert(4usize);
    let mut out = Vec::new();
    flatten_tree(&tree, &expanded, 0, &mut out);
    let labels: Vec<&str> = out.iter().map(|l| l.label.as_str()).collect();
    assert_eq!(labels, vec!["file a.mp4", "container", "streams (0)"]);
    assert_eq!(out[1].depth, 1);
    assert!(out[1].has_children);
    assert!(!out[1].expanded);

    expanded.insert(2usize);
    let mut out = Vec::new();
    flatten_tree(&tree, &expanded, 0, &mut out);
    let labels: Vec<&str> = out.iter().map(|l| l.label.as_str()).collect();
    assert_eq!(labels, vec!["file a.mp4", "container", "format: mp4", "size: 1 KB", "streams (0)"]);
    assert_eq!(out[2].depth, 2);
}

fn sample_report() -> ReportOverview {
    ReportOverview {
        path: "a.mp4".to_string(),
        format_name: Some("mov,mp4".to_string()),
        duration_text: Some("00:00:10 (10.00s)".to_string()),
        size_text: None,
        bit_rate_text: Some("800.00 Kbps".to_string()),
        tags: vec![("title".to_string(), "Demo".to_string())],
    }
}

fn sample_stream(index: usize, media_type: MediaType) -> StreamOverview {
    StreamOverview {
        index,
        media_type,
        codec_name: Some("h264".to_string()),
        width: 1280,
        height: 720,
        frame_rate_text: Some("30.000".to_string()),
        sample_rate: 0,
        channels: 0,
        bit_rate: 600_000,
        bit_rate_text: "600.00 Kbps".to_string(),
        duration_text: None,
        metadata: Vec::new(),
    }
}

fn packet(index: usize, stream_index: i32, keyframe: bool) -> PacketReport {
    PacketReport {
        index,
        stream_index,
        pts: -2,
        dts: 0,
        duration: 512,
        size: 1024,
        pos: 4096,
        is_keyframe: keyframe,
    }
}

fn labels_of(node: &TreeNode) -> Vec<&str> {
    node.children.iter().map(|c| c.label.as_str()).collect()
}

#[test]
fn builds_the_tui_tree() {
    let report = sample_report();
    let streams = vec![sample_stream(0, MediaType::Video)];
    let packets = vec![packet(0, 1, true), packet(1, 0, false), packet(2, 1, false)];
    let tree = build_tui_tree(&report, &streams, &packets, true, 3);

    assert_eq!(tree.label, "file a.mp4");
    assert_eq!(labels_of(&tree), vec!["container", "streams (1)", "packets captured 3 (truncated at 3)"]);

    let container = &tree.children[0];
    assert_eq!(
        labels_of(container),
        vec!["format: mov,mp4", "duration: 00:00:10 (10.00s)", "bitrate: 800.00 Kbps", "tags"]
    );
    assert_eq!(labels_of(&container.children[3]), vec!["title: Demo"]);

    let stream = &tree.children[1].children[0];
    assert_eq!(stream.label, "stream #0 [video] codec=h264");
    assert_eq!(
        labels_of(stream),
        vec!["resolution: 1280x720", "frame_rate: 30.000 fps", "bitrate: 600.00 Kbps"]
    );

    let groups = &tree.children[2];
    assert_eq!(labels_of(groups), vec!["stream 0 packets (1)", "stream 1 packets (2)"]);
    let first = &groups.children[1].children[0];
    assert_eq!(first.label, "packet #00000 size=1024 keyframe=yes");
    assert_eq!(
        labels_of(first),
        vec![
            "stream_index: 1",
            "pts: -2",
            "dts: 0",
            "duration: 512",
            "size: 1024",
            "position: 4096",
            "keyframe: true"
        ]
    );
    assert_eq!(groups.children[1].children[1].label, "packet #00002 size=1024 keyframe=no");
}

#[test]
fn numbers_the_tui_tree_in_post_order() {
    let report = ReportOverview {
        path: "b.wav".to_string(),
        format_name: None,
        duration_text: None,
        size_text: None,
        bit_rate_text: None,
        tags: Vec::new(),
    };
    let tree = build_tui_tree(&report, &[], &[], false, 10);
    // format leaf 0, container 1, streams 2, packets 3, root 4
    assert_eq!(tree.children[0].children[0].label, "format: unknown");
    assert_eq!(tree.children[0].children[0].id, 0);
    assert_eq!(tree.children[0].id, 1);
    assert_eq!(tree.children[1].id, 2);
    assert_eq!(tree.children[2].label, "packets captured 0 (complete)");
    assert_eq!(tree.children[2].id, 3);
    assert_eq!(tree.id, 4);
}

#[test]
fn lists_stream_keys_in_order() {
    let packets = vec![packet(0, 3, true), packet(1, -1, false), packet(2, 3, false), packet(3, 0, true)];
    assert_eq!(stream_keys(&packets), vec![-1, 0, 3]);
    assert_eq!(stream_keys(&[]), Vec::<i32>::new());
}

#[test]
fn colours_lines_by_label() {
    assert_eq!(line_color("file a.mp4"), LineColor::White);
    assert_eq!(line_color("container"), LineColor::Magenta);
    assert_eq!(line_color("bitrate: 1 bps"), LineColor::Magenta);
    assert_eq!(line_color("streams (2)"), LineColor::Blue);
    assert_eq!(line_color("stream #0 [video] codec=h264"), LineColor::Blue);
    assert_eq!(line_color("stream 0 packets (4)"), LineColor::DarkGreen);
    assert_eq!(line_color("packets captured 4 (complete)"), LineColor::DarkGreen);
    assert_eq!(line_color("packet #00001 size=3 keyframe=no"), LineColor::Green);
    assert_eq!(line_color("tags"), LineColor::Yellow);
    assert_eq!(line_color("metadata"), LineColor::Yellow);
    assert_eq!(line_color("keyframe: true"), LineColor::Green);
    assert_eq!(line_color("keyframe: false"), LineColor::DarkYellow);
    assert_eq!(line_color("pts: 7"), LineColor::Grey);
}

fn nav_lines() -> Vec<FlatLine> {
    vec![
        line(4, "file a.mp4", 0, true, true),
        line(2, "container", 1, true, false),
        line(3, "streams (0)", 1, false, false),
    ]
}

#[test]
fn starts_with_root_and_children_expanded() {
    let tree = sample_tree();
    let state = TreeState::for_tree(&tree);
    assert_eq!(state.selected, 0);
    let expanded: Vec<usize> = state.expanded.iter().copied().collect();
    assert_eq!(expanded, vec![2, 3, 4]);
}

#[test]
fn moves_the_cursor_with_keys() {
    let lines = nav_lines();
    let mut state = TreeState::default();
    assert_eq!(state.handle_key(TreeKey::Up, &lines), KeyOutcome::Continue { changed: false });
    assert_eq!(state.handle_key(TreeKey::Down, &lines), KeyOutcome::Continue { changed: true });
    assert_eq!(state.selected, 1);
    assert_eq!(state.handle_key(TreeKey::End, &lines), KeyOutcome::Continue { changed: true });
    assert_eq!(state.selected, 2);
    assert_eq!(state.handle_key(TreeKey::Down, &lines), KeyOutcome::Continue { changed: false });
    assert_eq!(state.handle_key(TreeKey::PageUp, &lines), KeyOutcome::Continue { changed: true });
    assert_eq!(state.selected, 0);
    assert_eq!(state.handle_key(TreeKey::PageDown, &lines), KeyOutcome::Continue { changed: true });
    assert_eq!(state.selected, 2);
    assert_eq!(state.handle_key(TreeKey::Home, &lines), KeyOutcome::Continue { changed: true });
    assert_eq!(state.handle_key(TreeKey::Other, &lines), KeyOutcome::Continue { changed: false });
    assert_eq!(state.handle_key(TreeKey::Quit, &lines), KeyOutcome::Quit);
}

#[test]
fn expands_collapses_and_climbs() {
    let lines = nav_lines();
    let mut state = TreeState::default();
    state.expanded.insert(4);
    state.selected = 1;
    assert_eq!(state.handle_key(TreeKey::Expand, &lines), KeyOutcome::Continue { changed: true });
    assert!(state.expanded.contains(&2));
    assert_eq!(state.handle_key(TreeKey::Expand, &lines), KeyOutcome::Continue { changed: false });
    assert_eq!(state.handle_key(TreeKey::Collapse, &lines), KeyOutcome::Continue { changed: true });
    assert!(!state.expanded.contains(&2));
    // collapsed already: moves to the parent line
    assert_eq!(state.handle_key(TreeKey::Collapse, &lines), KeyOutcome::Continue { changed: true });
    assert_eq!(state.selected, 0);
    // the root is never collapsed, and has no parent
    assert_eq!(state.handle_key(TreeKey::Collapse, &lines), KeyOutcome::Continue { changed: false });
    assert!(state.expanded.contains(&4));
    assert_eq!(state.handle_key(TreeKey::Toggle, &lines), KeyOutcome::Continue { changed: false });
    state.selected = 1;
    assert_eq!(state.handle_key(TreeKey::Toggle, &lines), KeyOutcome::Continue { changed: true });
    assert!(state.expanded.contains(&2));
    assert_eq!(state.handle_key(TreeKey::Toggle, &lines), KeyOutcome::Continue { changed: true });
    assert!(!state.expanded.contains(&2));
    state.selected = 2;
    assert_eq!(state.handle_key(TreeKey::Toggle, &lines), KeyOutcome::Continue { changed: false });
}

#[test]
fn clamps_and_scrolls() {
    let mut state = TreeState::default();
    state.selected = 9;
    state.clamp_selection(4);
    assert_eq!(state.selected, 3);
    state.clamp_selection(0);
    assert_eq!(state.selected, 0);

    state.selected = 12;
    state.scroll_into_view(5);
    assert_eq!(state.scroll, 8);
    state.selected = 3;
    state.scroll_into_view(5);
    assert_eq!(state.scroll, 3);

    assert_eq!(body_height(24), 22);
    assert_eq!(body_height(2), 1);
    assert_eq!(body_height(0), 1);
}

#[test]
fn draws_rows_and_footer() {
    let l = line(2, "container", 1, true, false);
    assert_eq!(row_text(&l, true), ">  [+] container");
    let l = line(0, "format: mp4", 2, false, false);
    assert_eq!(row_text(&l, false), "         format: mp4");
    let l = line(4, "file a.mp4", 0, true, true);
    assert_eq!(row_text(&l, false), " [-] file a.mp4");
    assert_eq!(footer_text(0, 3), "Node 1 of 3");
    assert_eq!(footer_text(usize::MAX, 3), format!("Node {} of 3", usize::MAX));
}

#[test]
fn media_files_need_a_real_extension() {
    assert!(!is_media_file("music/.mp3"));
    assert!(is_media_file("music/..mp3"));
    assert!(!is_media_file(""));
    assert!(is_media_file("/home/u/Videos/clip.WebM"));
}
