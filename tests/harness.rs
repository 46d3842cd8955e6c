use qwt::{HWT, WT};
use qwt_experiments::alphabet::remap_text;
use qwt_experiments::artifact::{has_single_symbol, Artifact, CodecError, Indexed};
use qwt_experiments::cache::{load_or_build_and_save_qwt, reload, CacheError};
use qwt_experiments::consistency::{check_rank_consistency, compare_cached};
use qwt_experiments::driver::{
    consume, registry, run_benchmark, summarize, time_construction, Variant,
};
use qwt_experiments::variants::{
    Hqwt256, Hqwt256Pfs, Hqwt512, Hqwt512Pfs, Qwt256, Qwt256Pfs, Qwt512, Qwt512Pfs,
};
use qwt_experiments::TimingQueries;

fn sample() -> Vec<u8> {
    vec![3, 1, 2, 3, 1]
}

fn longer_text() -> Vec<u8> {
    let mut v = Vec::new();
    for i in 0..300u32 {
        v.push(((i * 7 + i / 5) % 11) as u8);
    }
    v
}

#[test]
fn timing_discards_warmup() {
    let mut t = TimingQueries::new(3, 1);
    for d in [100u64, 10, 20, 30] {
        t.record(d);
    }
    assert_eq!(t.get(), (10, 30, 20));
}

#[test]
fn timing_equal_durations_coincide() {
    let mut t = TimingQueries::new(4, 2);
    for d in [1u64, 2, 7, 7, 7, 7] {
        t.record(d);
    }
    assert_eq!(t.get(), (7, 7, 7));
}

#[test]
fn timing_average_rounds_down() {
    let mut t = TimingQueries::new(2, 0);
    t.record(u64::MAX);
    t.record(u64::MAX - 1);
    assert_eq!(t.get(), (u64::MAX - 1, u64::MAX, u64::MAX - 1));
}

#[test]
fn timing_with_clock_is_ordered() {
    let mut t = TimingQueries::new(3, 1);
    for _ in 0..4 {
        t.start();
        t.stop();
    }
    let (lo, hi, avg) = t.get();
    assert!(lo <= avg && avg <= hi);
}

#[test]
fn rank_scenario_both_variants() {
    let text = sample();
    let a = <WT<u8> as Indexed>::build(&text);
    let b = <HWT<u8> as Indexed>::build(&text);
    assert_eq!(Artifact::rank(&a, 1, 3), Some(1));
    assert_eq!(Artifact::rank(&b, 1, 3), Some(1));
    assert_eq!(Artifact::rank(&a, 3, 5), Some(2));
    assert_eq!(Artifact::rank(&b, 3, 5), Some(2));
    assert_eq!(Artifact::rank(&a, 1, 6), None);
    assert_eq!(Artifact::rank(&b, 1, 6), None);
}

#[test]
fn access_matches_text() {
    let text = sample();
    let a = <WT<u8> as Indexed>::build(&text);
    let b = <HWT<u8> as Indexed>::build(&text);
    for i in 0..text.len() {
        assert_eq!(a.access(i), Some(text[i]));
        assert_eq!(b.access(i), Some(text[i]));
    }
    assert_eq!(a.access(5), None);
    assert_eq!(b.access(5), None);
}

#[test]
fn round_trip_keeps_access() {
    let text = longer_text();
    let a = <WT<u8> as Indexed>::build(&text);
    let b = <HWT<u8> as Indexed>::build(&text);
    let a2 = reload(&a).unwrap();
    let b2 = reload(&b).unwrap();
    for i in 0..text.len() + 2 {
        assert_eq!(a2.access(i), a.access(i));
        assert_eq!(b2.access(i), b.access(i));
    }
}

#[test]
fn encoding_is_not_empty() {
    let a = <WT<u8> as Indexed>::build(&sample());
    let bytes = a.encode();
    assert!(!bytes.is_empty());
    let back = <WT<u8> as Artifact>::decode(&bytes).unwrap();
    assert_eq!(back.access(0), Some(3));
}

#[test]
fn garbage_does_not_decode() {
    let garbage = vec![0xffu8; 64];
    assert!(matches!(
        <WT<u8> as Artifact>::decode(&garbage),
        Err(CodecError::Decode)
    ));
    assert!(matches!(
        <HWT<u8> as Artifact>::decode(&garbage),
        Err(CodecError::Decode)
    ));
}

#[test]
fn cache_builds_when_empty() {
    let text = sample();
    let loaded = load_or_build_and_save_qwt::<WT<u8>>(None, &text).unwrap();
    assert!(loaded.built);
    let ns = loaded.construction_ns.unwrap();
    assert_eq!(loaded.construction_ms, Some(ns / 1_000_000));
    let bytes = loaded.to_write.unwrap();
    let back = <WT<u8> as Artifact>::decode(&bytes).unwrap();
    for i in 0..text.len() {
        assert_eq!(back.access(i), Some(text[i]));
    }
}

#[test]
fn cache_loads_without_building() {
    let text = sample();
    let bytes = <HWT<u8> as Indexed>::build(&text).encode();
    let loaded = load_or_build_and_save_qwt::<HWT<u8>>(Some(bytes), &text).unwrap();
    assert!(!loaded.built);
    assert!(loaded.construction_ms.is_none());
    assert!(loaded.to_write.is_none());
    assert_eq!(Artifact::rank(&loaded.artifact, 1, 3), Some(1));
}

#[test]
fn cache_keeps_stale_contents() {
    let bytes = <WT<u8> as Indexed>::build(&vec![9, 9]).encode();
    let loaded = load_or_build_and_save_qwt::<WT<u8>>(Some(bytes), &sample()).unwrap();
    assert!(!loaded.built);
    assert_eq!(loaded.artifact.access(0), Some(9));
    assert_eq!(loaded.artifact.access(2), None);
}

#[test]
fn cache_garbage_is_an_error() {
    let garbage = vec![0xffu8; 64];
    let r = load_or_build_and_save_qwt::<WT<u8>>(Some(garbage), &sample());
    assert!(matches!(r, Err(CacheError::Deserialization)));
}

#[test]
fn variants_agree_on_rank() {
    let text = longer_text();
    let a = <WT<u8> as Indexed>::build(&text);
    let b = <HWT<u8> as Indexed>::build(&text);
    assert_eq!(check_rank_consistency(&a, &b, &text), Ok(()));
    let empty: Vec<u8> = Vec::new();
    let a0 = <WT<u8> as Indexed>::build(&empty);
    let b0 = <HWT<u8> as Indexed>::build(&empty);
    assert_eq!(check_rank_consistency(&a0, &b0, &empty), Ok(()));
}

#[test]
fn consume_reads_probe() {
    let text = longer_text();
    let a = <WT<u8> as Indexed>::build(&text);
    assert_eq!(consume(250, &a, 123), ((250u16 + text[123] as u16) % 256) as u8);
    let short = <WT<u8> as Indexed>::build(&sample());
    assert_eq!(consume(7, &short, 123), 7);
}

#[test]
fn summarize_converts_units() {
    let r = summarize(Variant::Hwt, "in.txt".to_string(), 1000, 10, (2_500_000, 9_999_999, 5_000_000));
    assert_eq!(r.variant, Variant::Hwt);
    assert_eq!(r.input, "in.txt");
    assert_eq!(r.n, 1000);
    assert_eq!(r.log_n, 9);
    assert_eq!((r.min_ms, r.max_ms, r.avg_ms), (2, 9, 5));
    assert_eq!(r.runs, 10);
    let z = summarize(Variant::Wt, String::new(), 0, 1, (0, 0, 0));
    assert_eq!(z.log_n, 0);
    let one = summarize(Variant::Wt, String::new(), 1, 1, (0, 0, 0));
    assert_eq!(one.log_n, 0);
}

#[test]
fn benchmark_runs_each_variant() {
    let text = longer_text();
    let ids: Vec<&str> = registry().iter().map(|v| v.id()).collect();
    assert_eq!(
        ids,
        vec![
            "QWT256",
            "QWT256Pfs",
            "QWT512",
            "QWT512Pfs",
            "HQWT256",
            "HQWT256Pfs",
            "HQWT512",
            "HQWT512Pfs",
            "WT",
            "HWT"
        ]
    );
    assert_eq!(Variant::Wt.suffix(), ".wt");
    assert_eq!(Variant::Hwt.suffix(), ".hwt");
    for v in registry() {
        let (r, sink) = run_benchmark(v, "x".to_string(), &text, 3).unwrap();
        assert_eq!(r.variant, v);
        assert_eq!(r.n, 300);
        assert_eq!(r.log_n, 8);
        assert_eq!(r.runs, 3);
        assert!(r.min_ms <= r.avg_ms && r.avg_ms <= r.max_ms);
        assert_eq!(sink, ((3 * text[123] as u32) % 256) as u8);
    }
}

#[test]
fn time_construction_is_ordered() {
    let ((lo, hi, avg), _) = time_construction::<HWT<u8>>(&sample(), 2);
    assert!(lo <= avg && avg <= hi);
}

#[test]
fn variants_disagree_on_different_inputs() {
    let text = vec![1u8, 2];
    let a = <WT<u8> as Indexed>::build(&text);
    let b = <HWT<u8> as Indexed>::build(&vec![2u8, 1]);
    assert_eq!(check_rank_consistency(&a, &b, &text), Err(1));
    let empty = <HWT<u8> as Indexed>::build(&Vec::new());
    assert_eq!(check_rank_consistency(&a, &empty, &text), Err(0));
}

#[test]
fn remap_makes_alphabet_dense() {
    let mut text = sample();
    assert_eq!(remap_text(&mut text), 3);
    assert_eq!(text, vec![2, 0, 1, 2, 0]);
    let mut wide = vec![200u8, 10, 200];
    assert_eq!(remap_text(&mut wide), 2);
    assert_eq!(wide, vec![1, 0, 1]);
}

fn check_access<A: Indexed>(text: &Vec<u8>) {
    let a = A::build(text);
    for i in 0..text.len() {
        assert_eq!(a.access(i), Some(text[i]));
    }
    assert_eq!(a.access(text.len()), None);
}

#[test]
fn quad_variants_access_text() {
    for text in [sample(), longer_text(), vec![0u8; 4], vec![255u8, 0, 128]] {
        check_access::<Qwt256>(&text);
        check_access::<Qwt256Pfs>(&text);
        check_access::<Qwt512>(&text);
        check_access::<Qwt512Pfs>(&text);
        check_access::<Hqwt256>(&text);
        check_access::<Hqwt256Pfs>(&text);
        check_access::<Hqwt512>(&text);
        check_access::<Hqwt512Pfs>(&text);
    }
    let empty = Qwt256::build(&Vec::new());
    assert_eq!(empty.access(0), None);
}

#[test]
fn sink_without_probe_stays_zero() {
    let ((_, _, _), sink) = time_construction::<Qwt512>(&sample(), 4);
    assert_eq!(sink, 0);
}

#[test]
fn single_symbol_text_detected() {
    assert!(has_single_symbol(&vec![7u8]));
    assert!(has_single_symbol(&vec![0u8, 0, 0]));
    assert!(!has_single_symbol(&vec![0u8, 1, 0]));
    assert!(!has_single_symbol(&Vec::new()));
    assert!(!<HWT<u8> as Indexed>::can_build(&vec![0u8, 0, 0]));
    assert!(<HWT<u8> as Indexed>::can_build(&sample()));
    assert!(<WT<u8> as Indexed>::can_build(&vec![0u8, 0, 0]));
    assert!(<Qwt256 as Indexed>::can_build(&vec![7u8]));
}

#[test]
fn cache_refuses_unbuildable_text() {
    let r = load_or_build_and_save_qwt::<HWT<u8>>(None, &vec![7u8, 7]);
    assert!(matches!(r, Err(CacheError::Construction)));
    let ok = load_or_build_and_save_qwt::<WT<u8>>(None, &vec![7u8, 7]).unwrap();
    assert_eq!(ok.artifact.access(1), Some(7));
}

#[test]
fn benchmark_skips_unbuildable_variant() {
    let text = vec![5u8; 4];
    assert!(run_benchmark(Variant::Hwt, "x".to_string(), &text, 1).is_none());
    let (r, sink) = run_benchmark(Variant::Wt, "x".to_string(), &text, 2).unwrap();
    assert_eq!(r.n, 4);
    assert_eq!(r.log_n, 2);
    assert_eq!(sink, 0);
}

#[test]
fn variant_suffixes_are_distinct() {
    let suffixes: Vec<&str> = registry().iter().map(|v| v.suffix()).collect();
    for i in 0..suffixes.len() {
        for j in 0..i {
            assert_ne!(suffixes[i], suffixes[j]);
        }
    }
    assert_eq!(Variant::Hqwt512Pfs.suffix(), ".hqwt512pfs");
}

#[test]
fn compare_builds_and_agrees() {
    let text = longer_text();
    let c = compare_cached::<WT<u8>, HWT<u8>>(None, None, &text).unwrap();
    assert_eq!(c.check, Ok(()));
    assert!(c.first.built && c.second.built);
    let again = compare_cached::<WT<u8>, HWT<u8>>(c.first.to_write, c.second.to_write, &text).unwrap();
    assert_eq!(again.check, Ok(()));
    assert!(!again.first.built && !again.second.built);
}

#[test]
fn compare_reports_stale_cache() {
    let stale = <WT<u8> as Indexed>::build(&vec![2u8, 1]).encode();
    let c = compare_cached::<WT<u8>, HWT<u8>>(Some(stale), None, &vec![1u8, 2]).unwrap();
    assert_eq!(c.check, Err(1));
    let garbage = vec![0xffu8; 64];
    let r = compare_cached::<WT<u8>, HWT<u8>>(None, Some(garbage), &sample());
    assert!(matches!(r, Err(CacheError::Deserialization)));
}
