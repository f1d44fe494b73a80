use advance_runner::metrics::prefixed_metrics;

#[test]
fn metric_names_carry_the_dispatcher_prefix() {
    assert_eq!(
        prefixed_metrics("claims_sent"),
        "cartesi_rollups_dispatcher_claims_sent"
    );
    assert_eq!(
        prefixed_metrics("advance_inputs_sent"),
        "cartesi_rollups_dispatcher_advance_inputs_sent"
    );
    assert_eq!(
        prefixed_metrics("finish_epochs_sent"),
        "cartesi_rollups_dispatcher_finish_epochs_sent"
    );
}

#[test]
fn empty_name_keeps_only_the_prefix() {
    assert_eq!(prefixed_metrics(""), "cartesi_rollups_dispatcher_");
}
