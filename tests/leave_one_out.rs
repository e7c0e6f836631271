use gcm::Dataset;

fn pass_through(rows: Vec<u32>) -> Vec<(u32, Vec<u32>)> {
    let data = Dataset::new(rows);
    data.leave_one_out(|stim: &u32, ex: &Vec<u32>| (*stim, ex.clone()))
}

#[test]
fn size_and_positional_access() {
    let data = Dataset::new(vec![7u32, 8, 9]);
    assert_eq!(data.size(), 3);
    assert_eq!(*data.at(0), 7);
    assert_eq!(*data.at(2), 9);
}

#[test]
fn exemplars_skip_the_stimulus() {
    let data = Dataset::new(vec![10u32, 20, 30, 40]);
    assert_eq!(data.exemplars(0), vec![20, 30, 40]);
    assert_eq!(data.exemplars(2), vec![10, 20, 40]);
    assert_eq!(data.exemplars(3), vec![10, 20, 30]);
}

#[test]
fn one_result_per_row_in_input_order() {
    let out = pass_through(vec![5, 6, 7, 8, 9]);
    assert_eq!(out.len(), 5);
    let stims: Vec<u32> = out.iter().map(|p| p.0).collect();
    assert_eq!(stims, vec![5, 6, 7, 8, 9]);
}

#[test]
fn stimulus_is_never_its_own_exemplar() {
    let out = pass_through(vec![1, 2, 3, 4]);
    for (stim, ex) in &out {
        assert_eq!(ex.len(), 3);
        assert!(!ex.contains(stim));
    }
    assert_eq!(out[1].1, vec![1, 3, 4]);
}

#[test]
fn identical_rows_are_compared_with_each_other() {
    let out = pass_through(vec![4, 4, 9]);
    assert_eq!(out[0].1, vec![4, 9]);
    assert_eq!(out[1].1, vec![4, 9]);
    assert_eq!(out[2].1, vec![4, 4]);
}

#[test]
fn deleting_a_row_only_removes_it_from_other_exemplar_sets() {
    let full = pass_through(vec![1, 2, 3, 4, 5]);
    let short = pass_through(vec![1, 2, 4, 5]);
    for (i, (stim, ex)) in short.iter().enumerate() {
        let j = if i < 2 { i } else { i + 1 };
        assert_eq!(*stim, full[j].0);
        let expected: Vec<u32> = full[j].1.iter().copied().filter(|v| *v != 3).collect();
        assert_eq!(*ex, expected);
    }
}

#[test]
fn single_row_has_no_exemplars() {
    let out = pass_through(vec![42]);
    assert_eq!(out, vec![(42, vec![])]);
}

#[test]
fn empty_dataset_gives_no_results() {
    let out = pass_through(vec![]);
    assert!(out.is_empty());
}

#[test]
fn leave_one_out_mean_of_other_rows() {
    let data = Dataset::new(vec![1.0f64, 2.0, 3.0, 6.0]);
    let means = data.leave_one_out(|_stim: &f64, ex: &Vec<f64>| ex.iter().sum::<f64>() / ex.len() as f64);
    let expected = [11.0 / 3.0, 10.0 / 3.0, 3.0, 2.0];
    assert_eq!(means.len(), 4);
    for (m, e) in means.iter().zip(expected.iter()) {
        assert!((m - e).abs() < 1e-12);
    }
}
