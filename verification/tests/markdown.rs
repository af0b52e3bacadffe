use emu_studio::markdown::{render_events, render_markdown, MdEvent, MdTag};

#[test]
fn renders_events_with_light_markup() {
    let events = vec![
        MdEvent::Start(MdTag::Heading(2)),
        MdEvent::Text("Title".to_string()),
        MdEvent::End(MdTag::Heading(2)),
        MdEvent::Start(MdTag::Paragraph),
        MdEvent::Text("a ".to_string()),
        MdEvent::Start(MdTag::Strong),
        MdEvent::Text("b".to_string()),
        MdEvent::End(MdTag::Strong),
        MdEvent::SoftBreak,
        MdEvent::Start(MdTag::Emphasis),
        MdEvent::Text("c".to_string()),
        MdEvent::End(MdTag::Emphasis),
        MdEvent::Code("x".to_string()),
        MdEvent::End(MdTag::Paragraph),
        MdEvent::Rule,
        MdEvent::Other,
    ];
    assert_eq!(render_events(&events), "##Title\na *b* _c_`x`\n---\n\n");
}

#[test]
fn closes_only_open_markers() {
    let events = vec![MdEvent::End(MdTag::Strong), MdEvent::End(MdTag::Emphasis), MdEvent::HardBreak];
    assert_eq!(render_events(&events), "\n\n");
    assert_eq!(render_events(&[]), "\n");
}

#[test]
fn renders_markdown_text() {
    let out = render_markdown("# Hi\n\nSome **bold** and *it* and `code`.\n\n---\n\n    let x = 1;\n");
    assert_eq!(out, "#Hi\nSome *bold* and _it_ and `code`.\n---\n    let x = 1;\n\n\n");
}
