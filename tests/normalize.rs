use etfra::escape::EscapeResult;
use etfra::normalize::{NormalizeEscInfo, NormalizeWithHistgram, NormalizeWithMaxIter, Ratio};

fn esc(iter: usize) -> EscapeResult {
    EscapeResult { escaped: true, iter }
}

fn inside(iter: usize) -> EscapeResult {
    EscapeResult { escaped: false, iter }
}

fn in_unit(r: Ratio) -> bool {
    r.den > 0 && r.num <= r.den
}

#[test]
fn linear_normalizer_divides_by_budget() {
    let mut n = NormalizeWithMaxIter { max_iter: 300 };
    assert_eq!(n.max_iter(), 300);
    n.prepare(&[esc(1)]);
    assert_eq!(n.normalize(&esc(150)), Ratio { num: 150, den: 300 });
    assert_eq!(n.normalize(&esc(0)), Ratio { num: 0, den: 300 });
    assert_eq!(n.normalize(&inside(300)), Ratio { num: 1, den: 1 });
    assert_eq!(n.normalize(&esc(300)), Ratio { num: 1, den: 1 });
    assert_eq!(n.normalize(&esc(1000)), Ratio { num: 1, den: 1 });
    let zero = NormalizeWithMaxIter { max_iter: 0 };
    assert_eq!(zero.normalize(&inside(0)), Ratio { num: 1, den: 1 });
}

#[test]
fn histogram_normalizer_counts_escaped_only() {
    let mut h = NormalizeWithHistgram::new(4);
    assert_eq!(h.max_iter(), 4);
    assert_eq!(h.normalize(&esc(2)), Ratio { num: 0, den: 1 });
    let batch = [esc(1), esc(1), esc(3), inside(4), esc(2), inside(4)];
    h.prepare(&batch);
    // Escaped iterations 1, 1, 3, 2: four in all.
    assert_eq!(h.normalize(&esc(0)), Ratio { num: 0, den: 4 });
    assert_eq!(h.normalize(&esc(1)), Ratio { num: 2, den: 4 });
    assert_eq!(h.normalize(&esc(2)), Ratio { num: 3, den: 4 });
    assert_eq!(h.normalize(&esc(3)), Ratio { num: 4, den: 4 });
    assert_eq!(h.normalize(&inside(4)), Ratio { num: 1, den: 1 });
    assert_eq!(h.normalize(&esc(9)), Ratio { num: 1, den: 1 });
}

#[test]
fn histogram_is_rebuilt_by_each_prepare() {
    let mut h = NormalizeWithHistgram::new(3);
    h.prepare(&[esc(0), esc(0)]);
    assert_eq!(h.normalize(&esc(0)), Ratio { num: 2, den: 2 });
    h.prepare(&[esc(2), esc(1)]);
    assert_eq!(h.normalize(&esc(0)), Ratio { num: 0, den: 2 });
    assert_eq!(h.normalize(&esc(1)), Ratio { num: 1, den: 2 });
}

#[test]
fn histogram_without_escaped_results() {
    let mut h = NormalizeWithHistgram::new(5);
    h.prepare(&[inside(5), inside(5)]);
    assert_eq!(h.normalize(&esc(2)), Ratio { num: 0, den: 1 });
    assert_eq!(h.normalize(&inside(5)), Ratio { num: 1, den: 1 });
    assert_eq!(h.cdf_at(5), Some(Ratio { num: 0, den: 1 }));
}

#[test]
fn normalized_values_lie_in_unit_interval() {
    let batch: Vec<EscapeResult> = (0..40).map(|i| if i % 7 == 0 { inside(20) } else { esc(i % 23) }).collect();
    let mut lin = NormalizeWithMaxIter { max_iter: 20 };
    let mut hist = NormalizeWithHistgram::new(20);
    lin.prepare(&batch);
    hist.prepare(&batch);
    for r in &batch {
        assert!(in_unit(lin.normalize(r)));
        assert!(in_unit(hist.normalize(r)));
    }
}

#[test]
fn cdf_is_monotone_and_full_at_budget() {
    let batch: Vec<EscapeResult> = (0..50).map(|i| esc((i * 7) % 13)).collect();
    let mut h = NormalizeWithHistgram::new(12);
    h.prepare(&batch);
    let mut prev = Ratio { num: 0, den: 1 };
    for i in 0..=12 {
        let c = h.cdf_at(i).unwrap();
        assert!(prev.num * c.den <= c.num * prev.den);
        prev = c;
    }
    let last = h.cdf_at(12).unwrap();
    assert_eq!(last.num, last.den);
    assert_eq!(h.cdf_at(13), None);
}
