//! The record decoders, each on a record that spells out every field.

use rtp_decoder::decimal::Decimal;
use rtp_decoder::model::Rotation;

/// The number that a decoded decimal spells, if one was decoded.
fn num(d: &Option<Decimal>) -> Option<f64> {
    d.as_ref().map(|x| x.as_str().parse::<f64>().unwrap())
}

#[test]
fn plan_parse() {
    let params = vec![
        "PLAN_DEF".to_string(),
        "PatientId".to_string(),
        "PatientLastName".to_string(),
        "PatientFirstName".to_string(),
        "PatientMiddleInitial".to_string(),
        "PlanId".to_string(),
        "PlanDate".to_string(),
        "PlanTime".to_string(),
        "CourseId".to_string(),
        "Diagnosis".to_string(),
        "MdLastName".to_string(),
        "MdFirstName".to_string(),
        "MdMiddleInitial".to_string(),
        "MdApproveLastName".to_string(),
        "MdApproveFirstName".to_string(),
        "MdApproveMiddleInitial".to_string(),
        "PhyApproveLastName".to_string(),
        "PhyApproveFirstName".to_string(),
        "PhyApproveMiddleInitial".to_string(),
        "AuthorLastName".to_string(),
        "AuthorFirstName".to_string(),
        "AuthorMiddleInitial".to_string(),
        "RtpMfg".to_string(),
        "RtpModel".to_string(),
        "RtpVersion".to_string(),
        "RtpIfProtocol".to_string(),
        "RtpIfVersion".to_string(),
        "1234".to_string(),
    ];
    let res = rtp_decoder::io::plan::parse(&params);
    if res.is_err() {
        println!("{:#?}", res.as_ref().err());
    }
    assert!(res.is_ok());
    let plan = res.unwrap();
    assert_eq!(&plan.patient_id, "PatientId");
    assert_eq!(&plan.patient_last_name, "PatientLastName");
    assert_eq!(&plan.patient_first_name, "PatientFirstName");
    assert_eq!(&plan.patient_middle_initial, "PatientMiddleInitial");
    assert_eq!(&plan.plan_id, "PlanId");
    assert_eq!(&plan.plan_date, "PlanDate");
    assert_eq!(&plan.plan_time, "PlanTime");
    assert_eq!(&plan.course_id, "CourseId");
    assert_eq!(&plan.diagnosis, "Diagnosis");
    assert_eq!(&plan.md_last_name, "MdLastName");
    assert_eq!(&plan.md_first_name, "MdFirstName");
    assert_eq!(&plan.md_middle_initial, "MdMiddleInitial");
    assert_eq!(&plan.md_approve_last_name, "MdApproveLastName");
    assert_eq!(&plan.md_approve_first_name, "MdApproveFirstName");
    assert_eq!(&plan.md_approve_middle_initial, "MdApproveMiddleInitial");
    assert_eq!(&plan.author_last_name, "AuthorLastName");
    assert_eq!(&plan.author_first_name, "AuthorFirstName");
    assert_eq!(&plan.author_middle_initial, "AuthorMiddleInitial");
    assert_eq!(&plan.rtp_mfg, "RtpMfg");
    assert_eq!(&plan.rtp_model, "RtpModel");
    assert_eq!(&plan.rtp_version, "RtpVersion");
    assert_eq!(&plan.rtp_if_protocol, "RtpIfProtocol");
    assert_eq!(&plan.rtp_if_version, "RtpIfVersion");
    assert_eq!(plan.crc, 1234);
}

#[test]
fn extended_plan_parse() {
    let params = vec![
        "EXTENDED_PLAN_DEF".to_string(),
        "BASE64".to_string(),
        "Fullname".to_string(),
        "PatientComments".to_string(),
        "1234".to_string(),
    ];
    let res = rtp_decoder::io::extended_plan::parse(&params);
    if res.is_err() {
        println!("{:#?}", res.as_ref().err());
    }
    assert!(res.is_ok());
    let plan = res.unwrap();
    assert_eq!(&plan.encoding, "BASE64");
    assert_eq!(&plan.fullname, "Fullname");
    assert_eq!(&plan.patient_comments, "PatientComments");
    assert_eq!(plan.crc, 1234);
}

#[test]
fn prescription_parse() {
    let params = vec![
        "RX_DEF".to_string(),
        "CourseId".to_string(),
        "RxSiteName".to_string(),
        "Technique".to_string(),
        "Modality".to_string(),
        "DoseSpec".to_string(),
        "10".to_string(),
        "1000".to_string(),
        "100".to_string(),
        "Daily".to_string(),
        "RxNote".to_string(),
        "2".to_string(),
        "1234".to_string(),
    ];
    let res = rtp_decoder::io::prescription::parse(&params);
    if res.is_err() {
        println!("{:#?}", res.as_ref().err());
    }
    assert!(res.is_ok());
    let presc = res.unwrap();
    assert_eq!(&presc.course_id, "CourseId");
    assert_eq!(&presc.rx_site_name, "RxSiteName");
    assert_eq!(&presc.technique, "Technique");
    assert_eq!(&presc.modality, "Modality");
    assert_eq!(&presc.dose_spec, "DoseSpec");
    assert_eq!(num(&presc.rx_depth), Some(10.0));
    assert_eq!(num(&presc.dose_ttl), Some(1000.0));
    assert_eq!(num(&presc.dose_tx), Some(100.0));
    assert_eq!(&presc.pattern, "Daily");
    assert_eq!(&presc.rx_note, "RxNote");
    assert_eq!(presc.number_of_fields, 2);
    assert_eq!(presc.crc, 1234);
}

#[test]
fn site_setup_parse() {
    let params = vec![
        "SITE_SETUP_DEF".to_string(),
        "RxSiteName".to_string(),
        "HFS".to_string(),
        "TreatmentMachine".to_string(),
        "ToleranceTable".to_string(),
        "6".to_string(),
        "7".to_string(),
        "8".to_string(),
        "StructureSetUid".to_string(),
        "FrameOfReferenceUid".to_string(),
        "11".to_string(),
        "12".to_string(),
        "13".to_string(),
        "14".to_string(),
        "15".to_string(),
        "16".to_string(),
        "17".to_string(),
        "18".to_string(),
        "MrlCoilName".to_string(),
        "20".to_string(),
        "CouchReference".to_string(),
        "22".to_string(),
        "RespiratoryMotionCompensationTechnique".to_string(),
        "RespiratorySignalSource".to_string(),
        "1234".to_string(),
    ];
    let res = rtp_decoder::io::site_setup::parse(&params);
    if res.is_err() {
        println!("{:#?}", res.as_ref().err());
    }
    assert!(res.is_ok());
    let plan = res.unwrap();
    assert_eq!(&plan.rx_site_name, "RxSiteName");
    assert_eq!(&plan.patient_orientation, "HFS");
    assert_eq!(&plan.treatment_machine, "TreatmentMachine");
    assert_eq!(&plan.tolerance_table, "ToleranceTable");
    assert_eq!(num(&plan.isocenter_position_x), Some(6.0));
    assert_eq!(num(&plan.isocenter_position_y), Some(7.0));
    assert_eq!(num(&plan.isocenter_position_z), Some(8.0));
    assert_eq!(&plan.structure_set_uid, "StructureSetUid");
    assert_eq!(&plan.frame_of_reference_uid, "FrameOfReferenceUid");
    assert_eq!(num(&plan.couch_vertical), Some(11.0));
    assert_eq!(num(&plan.couch_lateral), Some(12.0));
    assert_eq!(num(&plan.couch_longitudinal), Some(13.0));
    assert_eq!(num(&plan.couch_angle), Some(14.0));
    assert_eq!(num(&plan.couch_pedestal), Some(15.0));
    assert_eq!(num(&plan.table_top_vertical_displacement), Some(16.0));
    assert_eq!(num(&plan.table_top_longitudinal_displacement), Some(17.0));
    assert_eq!(num(&plan.table_top_lateral_displacement), Some(18.0));
    assert_eq!(&plan.mrl_coil_name, "MrlCoilName");
    assert_eq!(plan.mrl_coil_index, Some(20));
    assert_eq!(&plan.couch_reference, "CouchReference");
    assert_eq!(plan.couch_reference_index, Some(22));
    assert_eq!(&plan.respiratory_motion_compensation_technique, "RespiratoryMotionCompensationTechnique");
    assert_eq!(&plan.respiratory_signal_source, "RespiratorySignalSource");
}

#[test]
fn simulation_parse() {
    let params = vec![
        "SIM_DEF".to_string(),
        "RxSiteName".to_string(),
        "FieldName".to_string(),
        "FieldId".to_string(),
        "FieldNote".to_string(),
        "TreatmentMachine".to_string(),
        "7".to_string(),
        "8".to_string(),
        "FieldXMode".to_string(),
        "10".to_string(),
        "11".to_string(),
        "12".to_string(),
        "FieldYMode".to_string(),
        "14".to_string(),
        "15".to_string(),
        "16".to_string(),
        "17".to_string(),
        "18".to_string(),
        "19".to_string(),
        "20".to_string(),
        "21".to_string(),
        "22".to_string(),
        "23".to_string(),
        "24".to_string(),
        "25".to_string(),
        "26".to_string(),
        "OtherLabel1".to_string(),
        "28".to_string(),
        "29".to_string(),
        "OtherLabel2".to_string(),
        "OtherMeasurement1".to_string(),
        "OtherMeasurement2".to_string(),
        "OtherLabel3".to_string(),
        "OtherMeasurement3".to_string(),
        "OtherMeasurement4".to_string(),
        "OtherLabel4".to_string(),
        "OtherMeasurement5".to_string(),
        "OtherMeasurement6".to_string(),
        "BladeXMode".to_string(),
        "40".to_string(),
        "41".to_string(),
        "42".to_string(),
        "BladeYMode".to_string(),
        "44".to_string(),
        "45".to_string(),
        "46".to_string(),
        "47".to_string(),
        "48".to_string(),
        "49".to_string(),
        "50".to_string(),
        "51".to_string(),
        "52".to_string(),
        "1234".to_string(),
    ];
    let res = rtp_decoder::io::simulation::parse(&params);
    if res.is_err() {
        println!("{:#?}", res.as_ref().err());
    }
    assert!(res.is_ok());
    let sim = res.unwrap();

    assert_eq!(&sim.rx_site_name , "RxSiteName");
    assert_eq!(&sim.field_name , "FieldName");
    assert_eq!(&sim.field_id , "FieldId");
    assert_eq!(&sim.field_note , "FieldNote");
    assert_eq!(&sim.treatment_machine , "TreatmentMachine");
    assert_eq!(num(&sim.gantry_angle), Some(7.0));
    assert_eq!(num(&sim.collimator_angle), Some(8.0));
    assert_eq!(&sim.field_x_mode , "FieldXMode");
    assert_eq!(num(&sim.field_x), Some(10.0));
    assert_eq!(num(&sim.collimator_x1), Some(11.0));
    assert_eq!(num(&sim.collimator_x2), Some(12.0));
    assert_eq!(&sim.field_y_mode , "FieldYMode");
    assert_eq!(num(&sim.field_y), Some(14.0));
    assert_eq!(num(&sim.collimator_y1), Some(15.0));
    assert_eq!(num(&sim.collimator_y2), Some(16.0));
    assert_eq!(num(&sim.couch_vertical), Some(17.0));
    assert_eq!(num(&sim.couch_lateral), Some(18.0));
    assert_eq!(num(&sim.couch_longitudinal), Some(19.0));
    assert_eq!(num(&sim.couch_angle), Some(20.0));
    assert_eq!(num(&sim.couch_pedestal), Some(21.0));
    assert_eq!(num(&sim.sad), Some(22.0));
    assert_eq!(num(&sim.ap_separation), Some(23.0));
    assert_eq!(num(&sim.pa_separation), Some(24.0));
    assert_eq!(num(&sim.lateral_separation), Some(25.0));
    assert_eq!(num(&sim.tangential_separation), Some(26.0));
    assert_eq!(&sim.other_label_1 , "OtherLabel1");
    assert_eq!(num(&sim.ssd_1), Some(28.0));
    assert_eq!(num(&sim.sfd_1), Some(29.0));
    assert_eq!(&sim.other_label_2 , "OtherLabel2");
    assert_eq!(&sim.other_measurement_1 , "OtherMeasurement1");
    assert_eq!(&sim.other_measurement_2 , "OtherMeasurement2");
    assert_eq!(&sim.other_label_3 , "OtherLabel3");
    assert_eq!(&sim.other_measurement_3 , "OtherMeasurement3");
    assert_eq!(&sim.other_measurement_4 , "OtherMeasurement4");
    assert_eq!(&sim.other_label_4 , "OtherLabel4");
    assert_eq!(&sim.other_measurement_5 , "OtherMeasurement5");
    assert_eq!(&sim.other_measurement_6 , "OtherMeasurement6");
    assert_eq!(&sim.blade_x_mode , "BladeXMode");
    assert_eq!(num(&sim.blade_x), Some(40.0));
    assert_eq!(num(&sim.blade_x1), Some(41.0));
    assert_eq!(num(&sim.blade_x2), Some(42.0));
    assert_eq!(&sim.blade_y_mode , "BladeYMode");
    assert_eq!(num(&sim.blade_y), Some(44.0));
    assert_eq!(num(&sim.blade_y1), Some(45.0));
    assert_eq!(num(&sim.blade_y2), Some(46.0));
    assert_eq!(num(&sim.ii_lateral), Some(47.0));
    assert_eq!(num(&sim.ii_longitudinal), Some(48.0));
    assert_eq!(num(&sim.ii_vertical), Some(49.0));
    assert_eq!(num(&sim.kvp), Some(50.0));
    assert_eq!(num(&sim.ma), Some(51.0));
    assert_eq!(num(&sim.seconds), Some(52.0));
    assert_eq!(sim.crc , 1234);
}

#[test]
fn field_parse() {
    let params = vec![
        "FIELD_DEF".to_string(),
        "RxSiteName".to_string(),
        "FieldName".to_string(),
        "FieldId".to_string(),
        "FieldNote".to_string(),
        "6".to_string(),
        "7".to_string(),
        "8".to_string(),
        "TreatmentMachine".to_string(),
        "TreatmentType".to_string(),
        "Modality".to_string(),
        "12".to_string(),
        "13".to_string(),
        "14".to_string(),
        "15".to_string(),
        "16".to_string(),
        "17".to_string(),
        "18".to_string(),
        "FieldXMode".to_string(),
        "20".to_string(),
        "21".to_string(),
        "22".to_string(),
        "FieldYMode".to_string(),
        "24".to_string(),
        "25".to_string(),
        "26".to_string(),
        "27".to_string(),
        "28".to_string(),
        "29".to_string(),
        "30".to_string(),
        "31".to_string(),
        "ToleranceTable".to_string(),
        "ArcDirection".to_string(),
        "34".to_string(),
        "35".to_string(),
        "36".to_string(),
        "Wedge".to_string(),
        "DynamicWedge".to_string(),
        "Block".to_string(),
        "Compensator".to_string(),
        "eApplicator".to_string(),
        "eFieldDefAperture".to_string(),
        "Bolus".to_string(),
        "44".to_string(),
        "45".to_string(),
        "46".to_string(),
        "47".to_string(),
        "48".to_string(),
        "49".to_string(),
        "50".to_string(),
        "51".to_string(),
        "1234".to_string(),
    ];
    let res = rtp_decoder::io::field::parse(&params);
    if res.is_err() {
        println!("{:#?}", res.as_ref().err());
    }
    assert!(res.is_ok());
    let field = res.unwrap();

    assert_eq!(field.rx_site_name , "RxSiteName".to_string());
    assert_eq!(field.field_name , "FieldName".to_string());
    assert_eq!(field.field_id , "FieldId".to_string());
    assert_eq!(field.field_note , "FieldNote".to_string());
    assert_eq!(num(&field.field_dose), Some(6.0));
    assert_eq!(num(&field.field_monitor_units), Some(7.0));
    assert_eq!(num(&field.wedge_monitor_units), Some(8.0));
    assert_eq!(field.treatment_machine , "TreatmentMachine".to_string());
    assert_eq!(field.treatment_type , "TreatmentType".to_string());
    assert_eq!(field.modality , "Modality".to_string());
    assert_eq!(num(&field.energy), Some(12.0));
    assert_eq!(field.time , Some(13u32));
    assert_eq!(num(&field.dose_rate), Some(14.0));
    assert_eq!(num(&field.sad), Some(15.0));
    assert_eq!(num(&field.ssd), Some(16.0));
    assert_eq!(num(&field.gantry_angle), Some(17.0));
    assert_eq!(num(&field.collimator_angle), Some(18.0));
    assert_eq!(field.field_x_mode , "FieldXMode".to_string());
    assert_eq!(num(&field.field_x), Some(20.0));
    assert_eq!(num(&field.collimator_x1), Some(21.0));
    assert_eq!(num(&field.collimator_x2), Some(22.0));
    assert_eq!(field.field_y_mode , "FieldYMode");
    assert_eq!(num(&field.field_y), Some(24.0));
    assert_eq!(num(&field.collimator_y1), Some(25.0));
    assert_eq!(num(&field.collimator_y2), Some(26.0));
    assert_eq!(num(&field.couch_vertical), Some(27.0));
    assert_eq!(num(&field.couch_lateral), Some(28.0));
    assert_eq!(num(&field.couch_longitudinal), Some(29.0));
    assert_eq!(num(&field.couch_angle), Some(30.0));
    assert_eq!(num(&field.couch_pedestal), Some(31.0));
    assert_eq!(field.tolerance_table , "ToleranceTable");
    assert_eq!(field.arc_direction , "ArcDirection");
    assert_eq!(num(&field.arc_start_angle), Some(34.0));
    assert_eq!(num(&field.arc_stop_angle), Some(35.0));
    assert_eq!(num(&field.arc_mu_degree), Some(36.0));
    assert_eq!(field.wedge , "Wedge".to_string());
    assert_eq!(field.dynamic_wedge , "DynamicWedge".to_string());
    assert_eq!(field.block , "Block".to_string());
    assert_eq!(field.compensator , "Compensator".to_string());
    assert_eq!(field.e_applicator , "eApplicator".to_string());
    assert_eq!(field.e_field_def_aperture , "eFieldDefAperture".to_string());
    assert_eq!(field.bolus , "Bolus".to_string());
    assert_eq!(num(&field.portfilm_mu_open), Some(44.0));
    assert_eq!(num(&field.portfilm_coeff_open), Some(45.0));
    assert_eq!(num(&field.portfilm_delta_open), Some(46.0));
    assert_eq!(num(&field.portfilm_mu_treat), Some(47.0));
    assert_eq!(num(&field.portfilm_coeff_treat), Some(48.0));
    assert_eq!(num(&field.isocenter_position_x), Some(49.0));
    assert_eq!(num(&field.isocenter_position_y), Some(50.0));
    assert_eq!(num(&field.isocenter_position_z), Some(51.0));
    assert_eq!(field.crc , 1234);

}

#[test]
fn extended_field_parse() {
    let params = vec![
        "EXTENDED_FIELD_DEF".to_string(),
        "FieldId".to_string(),
        "OriginalPlanUid".to_string(),
        "OriginalBeamNumber".to_string(),
        "OriginalBeamName".to_string(),
        "IsFff".to_string(),
        "AccessoryCode".to_string(),
        "AccessoryType".to_string(),
        "HighDoseAuthorization".to_string(),
        "ReferencedRtPlanUid".to_string(),
        "RtPlanRelationship".to_string(),
        "1234".to_string(),
    ];
    let res = rtp_decoder::io::extended_field::parse(&params);
    if res.is_err() {
        println!("{:#?}", res.as_ref().err());
    }
    assert!(res.is_ok());
    let field = res.unwrap();
    assert_eq!(&field.field_id, "FieldId");
    assert_eq!(&field.original_plan_uid, "OriginalPlanUid");
    assert_eq!(&field.original_beam_number, "OriginalBeamNumber");
    assert_eq!(&field.original_beam_name, "OriginalBeamName");
    assert_eq!(&field.is_fff, "IsFff");
    assert_eq!(&field.accessory_code, "AccessoryCode");
    assert_eq!(&field.accessory_type, "AccessoryType");
    assert_eq!(&field.high_dose_authorization, "HighDoseAuthorization");
    assert_eq!(&field.rt_plan_relationship, "RtPlanRelationship");
    assert_eq!(field.crc, 1234);
}

#[test]
fn multi_leaf_collimator_parse() {
    let leaf_count = 40u32;
    let max_leaves = 50u32;
    let mut params = vec![
        "MLC_DEF".to_string(),
        "FieldId".to_string(),
        "MlcType".to_string(),
        leaf_count.to_string(),
    ];
    for i in 0..leaf_count {
        params.push((4_usize + i as usize).to_string());
    }
    for _i in leaf_count..max_leaves {
        params.push("".to_string());
    }
    for i in 0..leaf_count {
        params.push((54_usize + i as usize).to_string());
    }
    for _i in leaf_count..max_leaves {
        params.push("".to_string());
    }
    params.push("1234".to_string());
    let res = rtp_decoder::io::multi_leaf_collimator::parse(&params);
    if res.is_err() {
        println!("{:#?}", res.as_ref().err());
    }
    assert!(res.is_ok());
    let mlc = res.unwrap();
    assert_eq!(&mlc.field_id, "FieldId");
    assert_eq!(&mlc.mlc_type, "MlcType");
    assert_eq!(mlc.mlc_leaves, leaf_count);
    assert_eq!(mlc.mlc_a.len(), leaf_count as usize);
    assert_eq!(mlc.mlc_b.len(), leaf_count as usize);
    for i in 0..leaf_count {
        assert_eq!(num(&mlc.mlc_a[i as usize]), Some((4_u32 + i) as f64));
        assert_eq!(num(&mlc.mlc_b[i as usize]), Some((54_u32 + i) as f64));
    }
    assert_eq!(mlc.crc, 1234);
}

#[test]
fn control_point_parse() {
    let nlp = 30u32;
    let mlp = 100u32;
    let mut params = vec![
        "CONTROL_PT_DEF".to_string(),
        "FieldId".to_string(),
        "MlcType".to_string(),
        nlp.to_string(),
        "5".to_string(),
        "6".to_string(),
        "7".to_string(),
        "8".to_string(),
        "WedgePosition".to_string(),
        "10".to_string(),
        "11".to_string(),
        "12".to_string(),
        "13".to_string(),
        "14".to_string(),
        "CW".to_string(),
        "16".to_string(),
        "CC".to_string(),
        "FieldXMode".to_string(),
        "19".to_string(),
        "20".to_string(),
        "21".to_string(),
        "FieldYMode".to_string(),
        "23".to_string(),
        "24".to_string(),
        "25".to_string(),
        "26".to_string(),
        "27".to_string(),
        "28".to_string(),
        "29".to_string(),
        "CW".to_string(),
        "31".to_string(),
        "CC".to_string(),
        "33".to_string(),
        "34".to_string(),
        "35".to_string(),
    ];
    for i in 0..nlp {
        params.push((35_usize + i as usize).to_string());
    }
    for _i in nlp..mlp {
        params.push("".to_string());
    }
    for i in 0..nlp {
        params.push((135_usize + i as usize).to_string());
    }
    for _i in nlp..mlp {
        params.push("".to_string());
    }
    params.push("1234".to_string());
    let res = rtp_decoder::io::control_point::parse(&params);
    if res.is_err() {
        println!("{:#?}", res.as_ref().err());
    }
    assert!(res.is_ok());
    let cp = res.unwrap();
    assert_eq!(&cp.field_id, "FieldId");
    assert_eq!(&cp.mlc_type, "MlcType");
    assert_eq!(cp.mlc_leaves, nlp);
    assert_eq!(cp.total_control_points, 5);
    assert_eq!(cp.control_pt_number, 6);
    assert_eq!(cp.mu_convention, Some(7));
    assert_eq!(num(&cp.monitor_units), Some(8.0));
    assert_eq!(&cp.wedge_position, "WedgePosition");
    assert_eq!(num(&cp.energy), Some(10.0));
    assert_eq!(num(&cp.dose_rate), Some(11.0));
    assert_eq!(num(&cp.ssd), Some(12.0));
    assert_eq!(num(&cp.ssd), Some(12.0));
    assert_eq!(cp.scale_convention, Some(13));
    assert_eq!(num(&cp.gantry_angle), Some(14.0));
    assert_eq!(cp.gantry_dir, Some(Rotation::CW));
    assert_eq!(num(&cp.collimator_angle), Some(16.0));
    assert_eq!(cp.collimator_dir, Some(Rotation::CC));
    assert_eq!(&cp.field_x_mode, "FieldXMode");
    assert_eq!(num(&cp.field_x), Some(19.0));
    assert_eq!(num(&cp.collimator_x1), Some(20.0));
    assert_eq!(num(&cp.collimator_x2), Some(21.0));
    assert_eq!(&cp.field_y_mode, "FieldYMode");
    assert_eq!(num(&cp.field_y), Some(23.0));
    assert_eq!(num(&cp.collimator_y1), Some(24.0));
    assert_eq!(num(&cp.collimator_y2), Some(25.0));
    assert_eq!(num(&cp.couch_vertical), Some(26.0));
    assert_eq!(num(&cp.couch_lateral), Some(27.0));
    assert_eq!(num(&cp.couch_longitudinal), Some(28.0));
    assert_eq!(num(&cp.couch_angle), Some(29.0));
    assert_eq!(cp.couch_dir, Some(Rotation::CW));
    assert_eq!(num(&cp.couch_pedestal), Some(31.0));
    assert_eq!(cp.couch_pedestal_dir, Some(Rotation::CC));
    assert_eq!(num(&cp.isocenter_position_x), Some(33.0));
    assert_eq!(num(&cp.isocenter_position_y), Some(34.0));
    assert_eq!(num(&cp.isocenter_position_z), Some(35.0));
    assert_eq!(cp.mlc_a.len(), nlp as usize);
    assert_eq!(cp.mlc_b.len(), nlp as usize);
    for i in 0..nlp {
        assert_eq!(num(&cp.mlc_a[i as usize]), Some((35_usize + i as usize) as f64));
        assert_eq!(num(&cp.mlc_b[i as usize]), Some((135_usize + i as usize) as f64));
    }
    assert_eq!(cp.crc, 1234);
}

#[test]
fn mlc_shape_parse() {
    let n_mlc = 160 * 2usize;
    let mut params = vec![
        "MLC_SHAPE_DEF".to_string(),
        "FieldId".to_string(),
        "3".to_string(),
        "4".to_string(),
    ];
    for i in 0..n_mlc {
        let value = 4_usize + i;
        params.push(value.to_string());
    }

    params.push("1234".to_string());
    let res = rtp_decoder::io::mlc_shape::parse(&params);
    if res.is_err() {
        println!("{:#?}", res.as_ref().err());
    }
    assert!(res.is_ok());
    let mlc = res.unwrap();
    assert_eq!(&mlc.field_id, "FieldId");
    assert_eq!(mlc.control_pt_number, 3);
    assert_eq!(mlc.total_shape_points, 4);
    assert_eq!(mlc.total_shape_points as usize, mlc.coordinates_x.len());
    assert_eq!(mlc.total_shape_points as usize, mlc.coordinates_y.len());
    for i in 0..mlc.total_shape_points as usize {
        assert_eq!(num(&mlc.coordinates_x[i]), Some((4_usize + i * 2) as f64));
        assert_eq!(num(&mlc.coordinates_y[i]), Some((5_usize + i * 2) as f64));
    }
    assert_eq!(mlc.crc, 1234);
}

#[test]
fn dose_action_parse() {
    let params = vec![
        "DOSE_ACTION".to_string(),
        "RegionName".to_string(),
        "3".to_string(),
        "ActionNote".to_string(),
        "1234".to_string(),
    ];
    let res = rtp_decoder::io::dose_action::parse(&params);
    if res.is_err() {
        println!("{:#?}", res.as_ref().err());
    }
    assert!(res.is_ok());
    let da = res.unwrap();
    assert_eq!(&da.region_name, "RegionName");
    assert_eq!(num(&da.action_dose), Some(3.0));
    assert_eq!(&da.action_note, "ActionNote");
    assert_eq!(da.crc, 1234);
}
