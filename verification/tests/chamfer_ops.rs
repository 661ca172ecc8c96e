use chamfer::dispatch::ChamferDispatch;
use chamfer::dispatch::Phase;
use chamfer::dispatch::inner_chamfer;
use chamfer::resolve::edge_ref_eq;
use chamfer::resolve::has_duplicate_refs;
use chamfer::resolve::resolve_edge_reference;
use chamfer::types::ChamferData;
use chamfer::types::ChamferError;
use chamfer::types::CutType;
use chamfer::types::DEFAULT_TOLERANCE_BITS;
use chamfer::types::EdgeReference;
use chamfer::types::ExtrudeGroup;
use chamfer::types::KernelResponse;
use chamfer::types::PathSegment;
use chamfer::types::SourceRange;

fn seg(name: &str, edge_id: u128) -> PathSegment {
    PathSegment {
        name: name.to_string(),
        edge_id,
    }
}

fn plate() -> ExtrudeGroup {
    ExtrudeGroup {
        id: 77,
        sketch_group_values: vec![seg("edge1", 1), seg("edge2", 2), seg("edge3", 3), seg("edge4", 4)],
    }
}

fn sr() -> SourceRange {
    SourceRange { start: 10, end: 42 }
}

fn tag(name: &str) -> EdgeReference {
    EdgeReference::Tag(name.to_string())
}

fn successes(n: usize) -> Vec<KernelResponse> {
    let mut v = Vec::new();
    for _ in 0..n {
        v.push(KernelResponse::Success);
    }
    v
}

#[test]
fn four_tags_all_present_succeed() {
    let group = plate();
    let before = group.clone();
    let data = ChamferData {
        radius: 2.0f64.to_bits(),
        tags: vec![tag("edge1"), tag("edge2"), tag("edge3"), tag("edge4")],
    };
    let out = inner_chamfer(data, &group, sr(), &successes(4));
    assert_eq!(out.result, Ok(()));
    assert_eq!(out.commands.len(), 4);
    for (k, cmd) in out.commands.iter().enumerate() {
        assert_eq!(cmd.object_id, 77);
        assert_eq!(cmd.edge_id, (k + 1) as u128);
        assert_eq!(cmd.radius, 2.0f64.to_bits());
        assert_eq!(cmd.tolerance, DEFAULT_TOLERANCE_BITS);
        assert_eq!(cmd.cut_type, CutType::Chamfer);
    }
    for p in 0..out.commands.len() {
        for q in (p + 1)..out.commands.len() {
            assert_ne!(out.commands[p].request_id, out.commands[q].request_id);
        }
    }
    // The solid is only read: the caller keeps the same, unchanged handle.
    assert_eq!(group, before);
}

#[test]
fn duplicate_tags_rejected_before_dispatch() {
    let group = plate();
    let data = ChamferData {
        radius: 2.0f64.to_bits(),
        tags: vec![tag("edge1"), tag("edge1")],
    };
    let out = inner_chamfer(data, &group, sr(), &successes(2));
    assert_eq!(out.commands.len(), 0);
    assert_eq!(
        out.result,
        Err(ChamferError::DuplicateReference { source_range: sr() })
    );
}

#[test]
fn duplicate_uuid_references_rejected() {
    let group = plate();
    let data = ChamferData {
        radius: 1.0f64.to_bits(),
        tags: vec![EdgeReference::Uuid(9), tag("edge1"), EdgeReference::Uuid(9)],
    };
    let out = inner_chamfer(data, &group, sr(), &successes(3));
    assert_eq!(out.commands.len(), 0);
    assert_eq!(
        out.result,
        Err(ChamferError::DuplicateReference { source_range: sr() })
    );
}

#[test]
fn unresolved_tag_after_first_command() {
    let group = plate();
    let data = ChamferData {
        radius: 2.0f64.to_bits(),
        tags: vec![tag("edge1"), tag("missing")],
    };
    let out = inner_chamfer(data, &group, sr(), &successes(2));
    // edge1 resolved first, so its command went out; the cut is applied
    // and stays applied: there is no rollback.
    assert_eq!(out.commands.len(), 1);
    assert_eq!(out.commands[0].edge_id, 1);
    assert_eq!(
        out.result,
        Err(ChamferError::UnresolvedTag {
            tag: "missing".to_string(),
            source_range: sr(),
        })
    );
}

#[test]
fn unresolved_first_tag_sends_nothing() {
    let group = plate();
    let data = ChamferData {
        radius: 2.0f64.to_bits(),
        tags: vec![tag("missing"), tag("edge1")],
    };
    let out = inner_chamfer(data, &group, sr(), &successes(2));
    assert_eq!(out.commands.len(), 0);
    assert_eq!(
        out.result,
        Err(ChamferError::UnresolvedTag {
            tag: "missing".to_string(),
            source_range: sr(),
        })
    );
}

#[test]
fn kernel_rejection_stops_dispatch() {
    let group = plate();
    let data = ChamferData {
        radius: 2.0f64.to_bits(),
        tags: vec![tag("edge1"), tag("edge2"), tag("edge3")],
    };
    let responses = vec![
        KernelResponse::Success,
        KernelResponse::Failure("radius must be positive".to_string()),
        KernelResponse::Success,
    ];
    let out = inner_chamfer(data, &group, sr(), &responses);
    // The first two commands were sent (the second was the one
    // rejected); the third was never sent.
    assert_eq!(out.commands.len(), 2);
    assert_eq!(out.commands[0].edge_id, 1);
    assert_eq!(out.commands[1].edge_id, 2);
    assert_eq!(
        out.result,
        Err(ChamferError::KernelCommandFailed {
            message: "radius must be positive".to_string(),
            source_range: sr(),
        })
    );
}

#[test]
fn empty_request_succeeds_without_commands() {
    let group = plate();
    let data = ChamferData {
        radius: 2.0f64.to_bits(),
        tags: Vec::new(),
    };
    let out = inner_chamfer(data, &group, sr(), &Vec::new());
    assert_eq!(out.result, Ok(()));
    assert_eq!(out.commands.len(), 0);
}

#[test]
fn uuid_reference_passes_through_unchanged() {
    let group = ExtrudeGroup {
        id: 5,
        sketch_group_values: Vec::new(),
    };
    let data = ChamferData {
        radius: 0.25f64.to_bits(),
        tags: vec![EdgeReference::Uuid(0xDEAD_BEEF)],
    };
    let out = inner_chamfer(data, &group, sr(), &successes(1));
    assert_eq!(out.result, Ok(()));
    assert_eq!(out.commands.len(), 1);
    assert_eq!(out.commands[0].edge_id, 0xDEAD_BEEF);
    assert_eq!(out.commands[0].object_id, 5);
    assert_eq!(out.commands[0].radius, 0.25f64.to_bits());
}

#[test]
fn first_matching_segment_wins() {
    let group = ExtrudeGroup {
        id: 1,
        sketch_group_values: vec![seg("a", 5), seg("b", 7), seg("a", 6)],
    };
    assert_eq!(resolve_edge_reference(&tag("a"), &group), Some(5));
    assert_eq!(resolve_edge_reference(&tag("b"), &group), Some(7));
    assert_eq!(resolve_edge_reference(&tag("c"), &group), None);
    assert_eq!(resolve_edge_reference(&EdgeReference::Uuid(99), &group), Some(99));
}

#[test]
fn default_tolerance_bits_encode_the_documented_constant() {
    assert_eq!(f64::from_bits(DEFAULT_TOLERANCE_BITS), 0.0000001);
}

#[test]
fn edge_reference_equality_is_by_value() {
    assert!(edge_ref_eq(&tag("a"), &tag("a")));
    assert!(!edge_ref_eq(&tag("a"), &tag("b")));
    assert!(edge_ref_eq(&EdgeReference::Uuid(3), &EdgeReference::Uuid(3)));
    assert!(!edge_ref_eq(&EdgeReference::Uuid(3), &EdgeReference::Uuid(4)));
    assert!(!edge_ref_eq(&tag("3"), &EdgeReference::Uuid(3)));
}

#[test]
fn duplicate_detection_finds_only_exact_repeats() {
    assert!(!has_duplicate_refs(&vec![tag("a"), tag("b"), EdgeReference::Uuid(1)]));
    assert!(has_duplicate_refs(&vec![tag("a"), tag("b"), tag("a")]));
    assert!(has_duplicate_refs(&vec![
        EdgeReference::Uuid(1),
        EdgeReference::Uuid(2),
        EdgeReference::Uuid(1)
    ]));
    assert!(!has_duplicate_refs(&Vec::new()));
}

#[test]
fn dispatch_steps_walk_the_request_in_order() {
    let group = plate();
    let data = ChamferData {
        radius: 2.0f64.to_bits(),
        tags: vec![tag("edge2"), tag("edge4")],
    };
    let mut dispatch = ChamferDispatch::new(data, &group, sr()).unwrap();
    assert_eq!(dispatch.phase, Phase::Running);
    assert_eq!(dispatch.next_index, 0);

    let first = dispatch.next_command(&group).unwrap().unwrap();
    assert_eq!(first.edge_id, 2);
    assert_eq!(dispatch.next_index, 1);
    assert_eq!(dispatch.handle_response(&KernelResponse::Success), Ok(()));

    let second = dispatch.next_command(&group).unwrap().unwrap();
    assert_eq!(second.edge_id, 4);
    assert_ne!(first.request_id, second.request_id);
    assert_eq!(dispatch.handle_response(&KernelResponse::Success), Ok(()));

    assert_eq!(dispatch.next_command(&group), Ok(None));
    assert_eq!(dispatch.phase, Phase::Succeeded);
}

#[test]
fn dispatch_step_fails_terminally_on_rejection() {
    let group = plate();
    let data = ChamferData {
        radius: 2.0f64.to_bits(),
        tags: vec![tag("edge1")],
    };
    let mut dispatch = ChamferDispatch::new(data, &group, sr()).unwrap();
    let _cmd = dispatch.next_command(&group).unwrap().unwrap();
    let verdict = dispatch.handle_response(&KernelResponse::Failure("edge not found".to_string()));
    assert_eq!(
        verdict,
        Err(ChamferError::KernelCommandFailed {
            message: "edge not found".to_string(),
            source_range: sr(),
        })
    );
    assert_eq!(dispatch.phase, Phase::Failed);
}

#[test]
fn validation_failure_reports_the_call_site() {
    let group = plate();
    let data = ChamferData {
        radius: 2.0f64.to_bits(),
        tags: vec![tag("edge1"), tag("edge1")],
    };
    let other = SourceRange { start: 3, end: 9 };
    let out = ChamferDispatch::new(data, &group, other);
    assert_eq!(
        out.unwrap_err(),
        ChamferError::DuplicateReference { source_range: other }
    );
}

#[test]
fn unresolved_tag_wins_over_later_rejection() {
    let group = plate();
    let data = ChamferData {
        radius: 2.0f64.to_bits(),
        tags: vec![tag("edge1"), tag("missing"), tag("edge2")],
    };
    // The verdict at the unresolved position is never consulted: no
    // command for "missing" is ever sent.
    let responses = vec![
        KernelResponse::Success,
        KernelResponse::Failure("never sent".to_string()),
        KernelResponse::Failure("never sent".to_string()),
    ];
    let out = inner_chamfer(data, &group, sr(), &responses);
    assert_eq!(out.commands.len(), 1);
    assert_eq!(
        out.result,
        Err(ChamferError::UnresolvedTag {
            tag: "missing".to_string(),
            source_range: sr(),
        })
    );
}
