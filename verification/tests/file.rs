//! Whole files, and what the decoders refuse.

use rtp_decoder::decimal::Decimal;
use rtp_decoder::io::parser::record_kind;
use rtp_decoder::io::{self, parse_line, parse_lines, Error, RecordKind};
use rtp_decoder::model::{
    ControlPoint, DoseAction, DoseTracking, ExtendedField, ExtendedPlan, Field, MlcShape,
    MultiLeafCollimator, Plan, Prescription, Rotation, Rtp, Simulation, SiteSetup,
};
use rtp_decoder::number::IntErrorKind;

/// The number that a decoded decimal spells, if one was decoded.
fn number(d: &Option<Decimal>) -> Option<f64> {
    d.as_ref().map(|x| x.as_str().parse::<f64>().unwrap())
}

/// A record of `length` fields: the keyword, then each position as a number,
/// then the checksum 1234.
fn numbered(keyword: &str, length: usize) -> Vec<String> {
    let mut v = vec![keyword.to_string()];
    for i in 1..length - 1 {
        v.push(i.to_string());
    }
    v.push("1234".to_string());
    v
}

/// The line that spells the fields.
fn line(fields: &[String]) -> String {
    format!("\"{}\"", fields.join("\",\""))
}

/// The two numbers of an error about the number of fields.
fn arity<T>(r: Result<T, Error>) -> Option<(usize, usize)> {
    match r {
        Err(Error::ParameterLengthMismatch(e, a)) => Some((e, a)),
        _ => None,
    }
}

fn plan_fields() -> Vec<String> {
    let mut v = vec!["PLAN_DEF".to_string(), "PatientId".to_string()];
    for i in 2..27 {
        v.push(format!("Text{}", i));
    }
    v.push("1234".to_string());
    v
}

#[test]
fn file_with_plan_field_and_unknown_line() {
    let lines = vec![
        line(&plan_fields()),
        line(&numbered("FIELD_DEF", 52)),
        line(&numbered("NOT_A_RECORD", 7)),
    ];
    let rtp = parse_lines(&lines).unwrap();
    assert_eq!(rtp.plan.patient_id, "PatientId");
    assert_eq!(rtp.plan.patient_last_name, "Text2");
    assert_eq!(rtp.plan.rtp_if_version, "Text26");
    assert_eq!(rtp.plan.crc, 1234);
    assert_eq!(rtp.fields.len(), 1);
    assert_eq!(rtp.fields[0].rx_site_name, "1");
    assert_eq!(number(&rtp.fields[0].field_dose), Some(5.0));
    assert_eq!(rtp.fields[0].time, Some(12));
    assert_eq!(rtp.fields[0].crc, 1234);
    assert!(rtp.extended_fields.is_empty());
    assert!(rtp.mlcs.is_empty());
    assert!(rtp.control_points.is_empty());
    assert!(rtp.mlc_shapes.is_empty());
    assert!(rtp.dose_trackings.is_empty());
    assert!(rtp.dose_actions.is_empty());
    assert_eq!(rtp.prescription.course_id, "");
    assert_eq!(rtp.prescription.number_of_fields, 0);
}

#[test]
fn field_one_short_fails_the_file() {
    let mut short = numbered("FIELD_DEF", 52);
    short.remove(10);
    assert_eq!(short.len(), 51);
    let lines = vec![line(&plan_fields()), line(&numbered("FIELD_DEF", 52)), line(&short)];
    match parse_lines(&lines) {
        Err(Error::ParameterLengthMismatch(expected, actual)) => {
            assert_eq!(expected, 52);
            assert_eq!(actual, 51);
        },
        other => panic!("{:?}", other.map(|_| ())),
    }
}

#[test]
fn control_point_with_every_slot_filled_takes_the_leaves_in_use() {
    let mut params = numbered("CONTROL_PT_DEF", 236);
    params[3] = "30".to_string();
    params[14] = "cw".to_string();
    let cp = io::control_point::parse(&params).unwrap();
    assert_eq!(cp.mlc_leaves, 30);
    assert_eq!(cp.mlc_a.len(), 30);
    assert_eq!(cp.mlc_b.len(), 30);
    for i in 0..30 {
        assert_eq!(number(&cp.mlc_a[i]), Some((35 + i) as f64));
        assert_eq!(number(&cp.mlc_b[i]), Some((135 + i) as f64));
    }
    assert_eq!(cp.gantry_dir, Some(Rotation::CW));
    assert_eq!(cp.collimator_dir, None);
    assert_eq!(cp.crc, 1234);
}

#[test]
fn stale_content_beyond_the_count_is_ignored() {
    for k in [0usize, 1, 17, 50] {
        let mut clean = numbered("MLC_DEF", 105);
        clean[3] = k.to_string();
        let mut stale = clean.clone();
        for i in 0..50 {
            if i >= k {
                clean[4 + i] = String::new();
                clean[54 + i] = String::new();
                stale[4 + i] = "stale".to_string();
                stale[54 + i] = "99.5".to_string();
            }
        }
        let a = io::multi_leaf_collimator::parse(&clean).unwrap();
        let b = io::multi_leaf_collimator::parse(&stale).unwrap();
        assert_eq!(a.mlc_a.len(), k);
        assert_eq!(a.mlc_b.len(), k);
        assert_eq!(b.mlc_a.len(), k);
        assert_eq!(b.mlc_b.len(), k);
        for i in 0..k {
            assert_eq!(number(&a.mlc_a[i]), Some((4 + i) as f64));
            assert_eq!(number(&a.mlc_b[i]), Some((54 + i) as f64));
            assert_eq!(number(&b.mlc_a[i]), number(&a.mlc_a[i]));
            assert_eq!(number(&b.mlc_b[i]), number(&a.mlc_b[i]));
        }
    }
}

#[test]
fn shape_points_are_read_as_pairs() {
    let mut params = numbered("MLC_SHAPE_DEF", 325);
    params[3] = " 3 ".to_string();
    params[4] = "-1.5".to_string();
    params[5] = "2.5e1".to_string();
    let shape = io::mlc_shape::parse(&params).unwrap();
    assert_eq!(shape.control_pt_number, 2);
    assert_eq!(shape.total_shape_points, 3);
    let xs: Vec<Option<f64>> = shape.coordinates_x.iter().map(number).collect();
    let ys: Vec<Option<f64>> = shape.coordinates_y.iter().map(number).collect();
    assert_eq!(xs, vec![Some(-1.5), Some(6.0), Some(8.0)]);
    assert_eq!(ys, vec![Some(25.0), Some(7.0), Some(9.0)]);
}

#[test]
fn count_above_the_capacity_fills_the_region_and_no_more() {
    let mut params = numbered("MLC_DEF", 105);
    params[3] = "51".to_string();
    let mlc = io::multi_leaf_collimator::parse(&params).unwrap();
    assert_eq!(mlc.mlc_leaves, 51);
    assert_eq!(mlc.mlc_a.len(), 50);
    assert_eq!(mlc.mlc_b.len(), 50);
    assert_eq!(number(&mlc.mlc_a[49]), Some(53.0));
    assert_eq!(number(&mlc.mlc_b[0]), Some(54.0));

    let mut params = numbered("CONTROL_PT_DEF", 236);
    params[3] = "4000000000".to_string();
    let cp = io::control_point::parse(&params).unwrap();
    assert_eq!(cp.mlc_a.len(), 100);
    assert_eq!(cp.mlc_b.len(), 100);
    assert_eq!(number(&cp.mlc_a[99]), Some(134.0));
    assert_eq!(number(&cp.mlc_b[99]), Some(234.0));

    let mut params = numbered("MLC_SHAPE_DEF", 325);
    params[3] = "161".to_string();
    let shape = io::mlc_shape::parse(&params).unwrap();
    assert_eq!(shape.coordinates_x.len(), 160);
    assert_eq!(shape.coordinates_y.len(), 160);
    assert_eq!(number(&shape.coordinates_x[159]), Some(322.0));
    assert_eq!(number(&shape.coordinates_y[159]), Some(323.0));
}

#[test]
fn blank_element_within_the_count_is_absent() {
    let mut params = numbered("MLC_DEF", 105);
    params[3] = "3".to_string();
    params[5] = " ".to_string();
    params[56] = "n/a".to_string();
    let mlc = io::multi_leaf_collimator::parse(&params).unwrap();
    let a: Vec<Option<f64>> = mlc.mlc_a.iter().map(number).collect();
    let b: Vec<Option<f64>> = mlc.mlc_b.iter().map(number).collect();
    assert_eq!(a, vec![Some(4.0), None, Some(6.0)]);
    assert_eq!(b, vec![Some(54.0), Some(55.0), None]);
}

#[test]
fn dose_tracking_reads_all_ten_groups() {
    let mut params = vec!["DOSE_DEF".to_string(), "Region".to_string(), "1.5".to_string()];
    for i in 0..10 {
        params.push(format!("Field{}", i));
        params.push(if i % 2 == 0 { format!("0.{}", i) } else { String::new() });
    }
    params.push("200".to_string());
    params.push("25".to_string());
    params.push("-7".to_string());
    let dt = io::dose_tracking::parse(&params).unwrap();
    assert_eq!(dt.region_name, "Region");
    assert_eq!(number(&dt.region_prior_dose), Some(1.5));
    assert_eq!(dt.field_ids.len(), 10);
    assert_eq!(dt.reg_coeffs.len(), 10);
    for i in 0..10 {
        assert_eq!(dt.field_ids[i], format!("Field{}", i));
        let expected = if i % 2 == 0 { Some(i as f64 / 10.0) } else { None };
        assert_eq!(number(&dt.reg_coeffs[i]), expected);
    }
    assert_eq!(number(&dt.actual_dose), Some(200.0));
    assert_eq!(dt.actual_fractions, 25);
    assert_eq!(dt.crc, -7);
}

#[test]
fn dose_tracking_counts_absent_fractions_as_zero() {
    let mut params = numbered("DOSE_DEF", 26);
    params[24] = String::new();
    assert_eq!(io::dose_tracking::parse(&params).unwrap().actual_fractions, 0);
    params[24] = "-3".to_string();
    assert_eq!(io::dose_tracking::parse(&params).unwrap().actual_fractions, 0);
    params[24] = "+4".to_string();
    assert_eq!(io::dose_tracking::parse(&params).unwrap().actual_fractions, 0);
    params[24] = " 4 ".to_string();
    assert_eq!(io::dose_tracking::parse(&params).unwrap().actual_fractions, 4);
}

#[test]
fn optional_integers_with_a_sign_are_absent() {
    let mut params = numbered("FIELD_DEF", 52);
    params[12] = "+13".to_string();
    assert_eq!(io::field::parse(&params).unwrap().time, None);
    params[12] = " 13 ".to_string();
    assert_eq!(io::field::parse(&params).unwrap().time, Some(13));

    let mut params = numbered("SITE_SETUP_DEF", 25);
    params[19] = "+1".to_string();
    params[21] = "-1".to_string();
    let ss = io::site_setup::parse(&params).unwrap();
    assert_eq!((ss.mrl_coil_index, ss.couch_reference_index), (None, None));

    let mut params = numbered("CONTROL_PT_DEF", 236);
    params[3] = "+2".to_string();
    params[6] = "+7".to_string();
    params[12] = "13".to_string();
    let cp = io::control_point::parse(&params).unwrap();
    assert_eq!(cp.mlc_leaves, 2);
    assert_eq!((cp.mu_convention, cp.scale_convention), (None, Some(13)));
}

#[test]
fn every_decoder_checks_the_number_of_fields_first() {
    for extra in [0usize, 1, 2, 40] {
        let wrong = |n: usize| vec!["WRONG".to_string(); n];
        for n in [28 - extra.min(28), 28 + extra + 1] {
            if n != 28 {
                assert_eq!(arity(io::plan::parse(&wrong(n))), Some((28, n)));
            }
        }
    }
    let none: Vec<String> = Vec::new();
    assert_eq!(arity(io::plan::parse(&none)), Some((28, 0)));
    assert_eq!(arity(io::extended_plan::parse(&none)), Some((5, 0)));
    assert_eq!(arity(io::prescription::parse(&none)), Some((13, 0)));
    assert_eq!(arity(io::site_setup::parse(&none)), Some((25, 0)));
    assert_eq!(arity(io::simulation::parse(&none)), Some((53, 0)));
    assert_eq!(arity(io::field::parse(&none)), Some((52, 0)));
    assert_eq!(arity(io::extended_field::parse(&none)), Some((12, 0)));
    assert_eq!(arity(io::multi_leaf_collimator::parse(&none)), Some((105, 0)));
    assert_eq!(arity(io::control_point::parse(&none)), Some((236, 0)));
    assert_eq!(arity(io::mlc_shape::parse(&none)), Some((325, 0)));
    assert_eq!(arity(io::dose_tracking::parse(&none)), Some((26, 0)));
    assert_eq!(arity(io::dose_action::parse(&none)), Some((5, 0)));
    assert_eq!(arity(io::control_point::parse(&numbered("CONTROL_PT_DEF", 237))), Some((236, 237)));
    assert_eq!(arity(io::mlc_shape::parse(&numbered("MLC_SHAPE_DEF", 324))), Some((325, 324)));
}

#[test]
fn decoder_refuses_another_keyword() {
    match io::plan::parse(&numbered("FIELD_DEF", 28)) {
        Err(Error::Keyword(expected, actual)) => {
            assert_eq!(expected, "PLAN_DEF");
            assert_eq!(actual, "FIELD_DEF");
        },
        other => panic!("{:?}", other),
    }
    match io::dose_action::parse(&numbered("dose_action", 5)) {
        Err(Error::Keyword(expected, actual)) => {
            assert_eq!(expected, "DOSE_ACTION");
            assert_eq!(actual, "dose_action");
        },
        other => panic!("{:?}", other),
    }
    // The keyword is checked before the checksum.
    let mut params = numbered("SIM", 53);
    params[52] = "x".to_string();
    assert!(matches!(io::simulation::parse(&params), Err(Error::Keyword(_, _))));
}

#[test]
fn decoder_refuses_a_checksum_that_is_no_integer() {
    let mut params = numbered("FIELD_DEF", 52);
    for (text, kind) in [
        ("", IntErrorKind::Empty),
        ("12.5", IntErrorKind::InvalidDigit),
        (" 1234", IntErrorKind::InvalidDigit),
        ("2147483648", IntErrorKind::PosOverflow),
        ("-2147483649", IntErrorKind::NegOverflow),
    ] {
        params[51] = text.to_string();
        match io::field::parse(&params) {
            Err(Error::ParseIntError(k)) => assert_eq!(k, kind),
            other => panic!("{:?}", other),
        }
    }
    params[51] = "-5".to_string();
    assert_eq!(io::field::parse(&params).unwrap().crc, -5);
}

#[test]
fn decoder_refuses_a_count_that_is_no_integer() {
    let mut params = numbered("CONTROL_PT_DEF", 236);
    params[3] = "  ".to_string();
    assert!(matches!(
        io::control_point::parse(&params),
        Err(Error::ParseIntError(IntErrorKind::Empty))
    ));
    params[3] = "30".to_string();
    params[5] = "-1".to_string();
    assert!(matches!(
        io::control_point::parse(&params),
        Err(Error::ParseIntError(IntErrorKind::InvalidDigit))
    ));
    // The first mandatory integer that fails decides.
    params[4] = "99999999999".to_string();
    assert!(matches!(
        io::control_point::parse(&params),
        Err(Error::ParseIntError(IntErrorKind::PosOverflow))
    ));

    let mut params = numbered("RX_DEF", 13);
    params[11] = " 2".to_string();
    assert!(matches!(
        io::prescription::parse(&params),
        Err(Error::ParseIntError(IntErrorKind::InvalidDigit))
    ));
    params[11] = "+2".to_string();
    assert_eq!(io::prescription::parse(&params).unwrap().number_of_fields, 2);
}

#[test]
fn optional_fields_that_cannot_be_read_are_absent() {
    let mut params = numbered("FIELD_DEF", 52);
    params[5] = "abc".to_string();
    params[6] = String::new();
    params[12] = "-13".to_string();
    params[50] = " 1.25 ".to_string();
    let field = io::field::parse(&params).unwrap();
    assert!(field.field_dose.is_none());
    assert!(field.field_monitor_units.is_none());
    assert_eq!(field.time, None);
    assert_eq!(number(&field.isocenter_position_z), Some(1.25));
    assert_eq!(field.isocenter_position_z.unwrap().as_str(), "1.25");
    assert_eq!(field.field_note, "4");
}

#[test]
fn text_fields_are_copied_as_they_are() {
    let mut params = numbered("EXTENDED_PLAN_DEF", 5);
    params[1] = "  padded  ".to_string();
    params[2] = "Ünal, \"J\"".to_string();
    params[3] = String::new();
    let plan = io::extended_plan::parse(&params).unwrap();
    assert_eq!(plan.encoding, "  padded  ");
    assert_eq!(plan.fullname, "Ünal, \"J\"");
    assert_eq!(plan.patient_comments, "");
}

#[test]
fn empty_file_gives_the_empty_plan() {
    let rtp = parse_lines(&Vec::new()).unwrap();
    assert_eq!(rtp.plan.patient_id, "");
    assert_eq!(rtp.plan.crc, 0);
    assert_eq!(rtp.extended_plan.encoding, "");
    assert_eq!(rtp.site_setup.mrl_coil_index, None);
    assert!(rtp.simulation.gantry_angle.is_none());
    assert!(rtp.fields.is_empty());
    assert!(rtp.dose_actions.is_empty());
}

#[test]
fn lines_that_are_no_records_are_passed_over() {
    let lines = vec![
        String::new(),
        "# a comment".to_string(),
        "PLAN_DEF,1,2".to_string(),
        "\"PLAN_DEF\",\"1\"  ".to_string(),
        "\"".to_string(),
        "\"\"".to_string(),
        "\"plan_def\",\"1\"".to_string(),
        line(&numbered("DOSE_ACTION", 5)),
    ];
    let rtp = parse_lines(&lines).unwrap();
    assert_eq!(rtp.plan.patient_id, "");
    assert_eq!(rtp.dose_actions.len(), 1);
    assert_eq!(rtp.dose_actions[0].region_name, "1");
    assert_eq!(number(&rtp.dose_actions[0].action_dose), Some(2.0));
    assert_eq!(rtp.dose_actions[0].action_note, "3");
}

#[test]
fn record_that_a_file_holds_once_is_replaced_by_the_next() {
    let mut first = numbered("RX_DEF", 13);
    first[1] = "first".to_string();
    let mut second = numbered("RX_DEF", 13);
    second[1] = "second".to_string();
    second[6] = String::new();
    let rtp = parse_lines(&vec![line(&first), line(&second)]).unwrap();
    assert_eq!(rtp.prescription.course_id, "second");
    assert!(rtp.prescription.rx_depth.is_none());
    assert_eq!(rtp.prescription.number_of_fields, 11);
}

#[test]
fn records_that_a_file_holds_many_times_keep_their_order() {
    let mut lines = Vec::new();
    for i in 0..5 {
        let mut f = numbered("FIELD_DEF", 52);
        f[3] = format!("F{}", i);
        lines.push(line(&f));
        let mut e = numbered("EXTENDED_FIELD_DEF", 12);
        e[1] = format!("E{}", 4 - i);
        lines.push(line(&e));
        lines.push(String::new());
    }
    let rtp = parse_lines(&lines).unwrap();
    let ids: Vec<&str> = rtp.fields.iter().map(|f| f.field_id.as_str()).collect();
    assert_eq!(ids, vec!["F0", "F1", "F2", "F3", "F4"]);
    let ids: Vec<&str> = rtp.extended_fields.iter().map(|f| f.field_id.as_str()).collect();
    assert_eq!(ids, vec!["E4", "E3", "E2", "E1", "E0"]);
}

#[test]
fn every_record_kind_finds_its_place() {
    let lines = vec![
        line(&numbered("DOSE_ACTION", 5)),
        line(&numbered("DOSE_DEF", 26)),
        line(&numbered("MLC_SHAPE_DEF", 325)),
        line(&numbered("CONTROL_PT_DEF", 236)),
        line(&numbered("MLC_DEF", 105)),
        line(&numbered("EXTENDED_FIELD_DEF", 12)),
        line(&numbered("FIELD_DEF", 52)),
        line(&numbered("SIM_DEF", 53)),
        line(&numbered("SITE_SETUP_DEF", 25)),
        line(&numbered("RX_DEF", 13)),
        line(&numbered("EXTENDED_PLAN_DEF", 5)),
        line(&numbered("PLAN_DEF", 28)),
    ];
    let rtp = parse_lines(&lines).unwrap();
    assert_eq!(rtp.plan.patient_id, "1");
    assert_eq!(rtp.extended_plan.encoding, "1");
    assert_eq!(rtp.prescription.number_of_fields, 11);
    assert_eq!(rtp.site_setup.mrl_coil_index, Some(19));
    assert_eq!(number(&rtp.simulation.seconds), Some(51.0));
    assert_eq!(rtp.fields.len(), 1);
    assert_eq!(rtp.extended_fields.len(), 1);
    assert_eq!(rtp.mlcs.len(), 1);
    assert_eq!(rtp.mlcs[0].mlc_a.len(), 3);
    assert_eq!(rtp.control_points.len(), 1);
    assert_eq!(rtp.control_points[0].total_control_points, 4);
    assert_eq!(rtp.control_points[0].mlc_b.len(), 3);
    assert_eq!(rtp.mlc_shapes.len(), 1);
    assert_eq!(rtp.mlc_shapes[0].coordinates_y.len(), 3);
    assert_eq!(rtp.dose_trackings.len(), 1);
    assert_eq!(rtp.dose_trackings[0].actual_fractions, 24);
    assert_eq!(rtp.dose_actions.len(), 1);
}

#[test]
fn first_line_that_fails_decides_the_error() {
    let mut bad_crc = numbered("PLAN_DEF", 28);
    bad_crc[27] = "crc".to_string();
    let lines = vec![
        line(&numbered("FIELD_DEF", 52)),
        line(&bad_crc),
        line(&numbered("FIELD_DEF", 3)),
    ];
    assert!(matches!(
        parse_lines(&lines),
        Err(Error::ParseIntError(IntErrorKind::InvalidDigit))
    ));
    let lines = vec![line(&numbered("FIELD_DEF", 3)), line(&bad_crc)];
    assert!(matches!(parse_lines(&lines), Err(Error::ParameterLengthMismatch(52, 3))));
}

#[test]
fn record_with_an_empty_checksum_fails_on_the_checksum() {
    let mut fields = numbered("DOSE_ACTION", 5);
    fields[4] = String::new();
    let lines = vec![line(&fields)];
    assert_eq!(io::get_params(&lines[0]).len(), 5);
    assert!(matches!(parse_lines(&lines), Err(Error::ParseIntError(IntErrorKind::Empty))));
    let mut fields = numbered("PLAN_DEF", 28);
    fields[26] = String::new();
    fields[27] = String::new();
    let lines = vec![line(&numbered("FIELD_DEF", 52)), line(&fields)];
    assert!(matches!(parse_lines(&lines), Err(Error::ParseIntError(IntErrorKind::Empty))));
}

#[test]
fn record_may_end_in_empty_fields_before_a_checksum() {
    let mut fields = numbered("EXTENDED_PLAN_DEF", 5);
    fields[1] = String::new();
    fields[2] = String::new();
    fields[3] = String::new();
    let rtp = parse_lines(&vec![line(&fields)]).unwrap();
    assert_eq!(rtp.extended_plan.encoding, "");
    assert_eq!(rtp.extended_plan.patient_comments, "");
    assert_eq!(rtp.extended_plan.crc, 1234);
}

#[test]
fn new_records_hold_nothing() {
    let plan = Plan::new();
    assert_eq!(plan.patient_id, "");
    assert_eq!(plan.rtp_if_version, "");
    assert_eq!(plan.crc, 0);
    let plan = ExtendedPlan::new();
    assert_eq!((plan.encoding.as_str(), plan.fullname.as_str(), plan.crc), ("", "", 0));
    let presc = Prescription::new();
    assert!(presc.rx_depth.is_none());
    assert_eq!((presc.pattern.as_str(), presc.number_of_fields, presc.crc), ("", 0, 0));
    let ss = SiteSetup::new();
    assert_eq!((ss.mrl_coil_index, ss.couch_reference_index, ss.crc), (None, None, 0));
    let sim = Simulation::new();
    assert!(sim.kvp.is_none());
    assert_eq!((sim.other_label_1.as_str(), sim.crc), ("", 0));
    let field = Field::new();
    assert!(field.energy.is_none());
    assert_eq!((field.time, field.bolus.as_str(), field.crc), (None, "", 0));
    let field = ExtendedField::new();
    assert_eq!((field.is_fff.as_str(), field.crc), ("", 0));
    let mlc = MultiLeafCollimator::new();
    assert_eq!((mlc.mlc_leaves, mlc.mlc_a.len(), mlc.mlc_b.len(), mlc.crc), (0, 0, 0, 0));
    let cp = ControlPoint::new();
    assert_eq!((cp.mlc_leaves, cp.total_control_points, cp.control_pt_number), (0, 0, 0));
    assert_eq!((cp.gantry_dir, cp.couch_dir, cp.mlc_a.len(), cp.crc), (None, None, 0, 0));
    let shape = MlcShape::new();
    assert_eq!((shape.total_shape_points, shape.coordinates_x.len(), shape.crc), (0, 0, 0));
    let dt = DoseTracking::new();
    assert_eq!((dt.field_ids.len(), dt.reg_coeffs.len(), dt.actual_fractions), (0, 0, 0));
    let da = DoseAction::new();
    assert!(da.action_dose.is_none());
    assert_eq!((da.region_name.as_str(), da.crc), ("", 0));
    let rtp = Rtp::new();
    assert_eq!(rtp.plan.patient_id, "");
    assert_eq!(rtp.fields.len() + rtp.control_points.len() + rtp.mlc_shapes.len(), 0);
    let rtp = Rtp::default();
    assert_eq!(rtp.site_setup.rx_site_name, "");
}

#[test]
fn record_kinds_are_told_by_their_keyword() {
    assert_eq!(record_kind("PLAN_DEF"), Some(RecordKind::Plan));
    assert_eq!(record_kind("EXTENDED_PLAN_DEF"), Some(RecordKind::ExtendedPlan));
    assert_eq!(record_kind("RX_DEF"), Some(RecordKind::Prescription));
    assert_eq!(record_kind("SITE_SETUP_DEF"), Some(RecordKind::SiteSetup));
    assert_eq!(record_kind("SIM_DEF"), Some(RecordKind::Simulation));
    assert_eq!(record_kind("FIELD_DEF"), Some(RecordKind::Field));
    assert_eq!(record_kind("EXTENDED_FIELD_DEF"), Some(RecordKind::ExtendedField));
    assert_eq!(record_kind("MLC_DEF"), Some(RecordKind::MultiLeafCollimator));
    assert_eq!(record_kind("CONTROL_PT_DEF"), Some(RecordKind::ControlPoint));
    assert_eq!(record_kind("MLC_SHAPE_DEF"), Some(RecordKind::MlcShape));
    assert_eq!(record_kind("DOSE_DEF"), Some(RecordKind::DoseTracking));
    assert_eq!(record_kind("DOSE_ACTION"), Some(RecordKind::DoseAction));
    assert_eq!(record_kind("plan_def"), None);
    assert_eq!(record_kind(""), None);
    assert_eq!(record_kind("PLAN_DEF "), None);
}

#[test]
fn line_by_line_gives_what_the_whole_file_gives() {
    let mut bad = numbered("SITE_SETUP_DEF", 25);
    bad[24] = String::new();
    bad.push("x".to_string());
    let lines = vec![
        line(&numbered("FIELD_DEF", 52)),
        "no record".to_string(),
        line(&numbered("RX_DEF", 13)),
        line(&numbered("UNKNOWN", 2)),
        line(&numbered("FIELD_DEF", 52)),
    ];
    let whole = parse_lines(&lines).unwrap();
    let mut rtp = Rtp::new();
    for l in &lines {
        assert!(parse_line(&mut rtp, l).is_ok());
    }
    assert_eq!(rtp.fields.len(), 2);
    assert_eq!(whole.fields.len(), 2);
    assert_eq!(rtp.prescription.rx_note, whole.prescription.rx_note);
    assert_eq!(rtp.prescription.rx_note, "10");
    // A line that cannot be decoded leaves the plan as it was.
    assert!(matches!(parse_line(&mut rtp, &line(&bad)), Err(Error::ParameterLengthMismatch(25, 26))));
    let mut short = numbered("RX_DEF", 13);
    short[12] = "?".to_string();
    assert!(matches!(parse_line(&mut rtp, &line(&short)), Err(Error::ParseIntError(_))));
    assert_eq!(rtp.fields.len(), 2);
    assert_eq!(rtp.prescription.rx_note, "10");
    assert_eq!(rtp.site_setup.rx_site_name, "");
}
