use camtrap_dp::{
    CaptureMethod, ClassificationMethod, Deployment, FeatureType, LifeStage, Medium, Observation,
    ObservationLevel, ObservationType, ReadDataPackageCsv, Sex, WriteDataPackageCsv,
};

const DEPLOYMENTS: &str = "\
deploymentID,locationID,locationName,latitude,longitude,coordinateUncertainty,deploymentStart,deploymentEnd,setupBy,cameraID,cameraModel,cameraDelay,cameraHeight,cameraDepth,cameraTilt,cameraHeading,detectionDistance,timestampIssues,baitUse,featureType,habitat,deploymentGroups,deploymentTags,deploymentComments
00a2c20d,e254a13c,B_HS_val 2_processiepad,51.496,4.774,187,2020-05-30T02:57:37Z,2020-07-01T09:41:41Z,,320,Reconyx-HF2X,0,1.30,,,,,false,false,,Campine area with a number of river valleys,mica,,
29b7d356,2df5259b,B_DL_val 5_beek kleine vijver,51.181,5.659,187,2020-07-31T04:43:33Z,2020-08-08T04:20:40Z,,334,Reconyx-HF2X,0,0.68,,,,,false,false,culvert,Campine area with a number of river valleys,mica,,\"boven de stroom, op een paal\"
577b543a,ff1535c0,B_DL_val 3_dikke boom,51.169,5.658,187,2020-06-19T21:00:00+02:00,2020-06-28T23:33:53+02:00,,357,Reconyx-HF2X,0,1.35,,,,,false,false,trailGame,Campine area with a number of river valleys,mica,,
62c200a9,ce943ced,B_DM_val 4_'t WAD,50.699,4.015,187,2021-03-27T20:38:18+01:00,2021-04-18T21:25:00+02:00,,364,Reconyx-PC800,0,0.50,,,,,false,false,,Campine area with a number of river valleys,mica,,
";

fn media_content(rows: usize) -> String {
    let mut text = String::from(
        "mediaID,deploymentID,captureMethod,timestamp,filePath,filePublic,fileName,fileMediatype,exifData,favorite,mediaComments\n",
    );
    for i in 0..rows {
        let method = if i % 2 == 0 { "activityDetection" } else { "timeLapse" };
        let exif = if i % 3 == 0 { "\"{\"\"ISO\"\":400}\"" } else { "" };
        let favorite = if i % 5 == 0 { "true" } else { "" };
        text.push_str(&format!(
            "m{:04},00a2c20d,{},2020-05-30T04:{:02}:{:02}+02:00,https://example.org/media/{}.jpg,{},{}.jpg,image/jpeg,{},{},\n",
            i,
            method,
            i / 60,
            i % 60,
            i,
            i % 2 == 0,
            i,
            exif,
            favorite,
        ));
    }
    text
}

fn observations_content(rows: usize) -> String {
    let mut text = String::from(
        "observationID,deploymentID,mediaID,eventID,eventStart,eventEnd,observationLevel,observationType,cameraSetupType,scientificName,count,lifeStage,sex,behavior,individualID,individualPositionRadius,individualPositionAngle,individualSpeed,bboxX,bboxY,bboxWidth,bboxHeight,classificationMethod,classifiedBy,classificationTimestamp,classificationProbability,observationTags,observationComments\n",
    );
    for i in 0..rows {
        if i % 2 == 0 {
            text.push_str(&format!(
                "o{:04},00a2c20d,m{:04},e{:03},2020-05-30T02:57:37Z,2020-05-30T02:57:44Z,media,animal,,Anas platyrhynchos,{},adult,female,foraging,,,,,0.2,0.35,0.5,0.25,machine,classifier v2,2020-08-22T10:25:19Z,0.95,,\n",
                i,
                i,
                i / 10,
                i % 7 + 1,
            ));
        } else {
            text.push_str(&format!(
                "o{:04},00a2c20d,,e{:03},2020-05-30T02:57:37Z,2020-05-30T02:57:44Z,event,blank,,,,,,,,,,,,,,,human,Peter Desmet,2020-08-22T10:25:19Z,,,\n",
                i,
                i / 10,
            ));
        }
    }
    text
}

#[test]
fn deployment_from_file() {
    let deployments = Deployment::from_bytes(DEPLOYMENTS.as_bytes()).unwrap();
    assert_eq!(deployments.len(), 4);
}

#[test]
fn deployment_from_url() {
    let body = bytes::Bytes::from(DEPLOYMENTS);
    let deployments = Deployment::from_bytes(body.as_ref()).unwrap();
    assert_eq!(deployments.len(), 4);
}

#[test]
fn medium_from_file() {
    let data = Medium::from_bytes(media_content(423).as_bytes()).unwrap();
    assert_eq!(data.len(), 423);
}

#[test]
fn medium_from_url() {
    let body = bytes::Bytes::from(media_content(423));
    let data = Medium::from_bytes(body.as_ref()).unwrap();
    assert_eq!(data.len(), 423);
}

#[test]
fn observation_from_file() {
    let data = Observation::from_bytes(observations_content(549).as_bytes()).unwrap();
    assert_eq!(data.len(), 549);
}

#[test]
fn observation_from_url() {
    let body = bytes::Bytes::from(observations_content(549));
    let data = Observation::from_bytes(body.as_ref()).unwrap();
    assert_eq!(data.len(), 549);
}

#[test]
fn deployment_to_file() {
    let deployments = Deployment::from_bytes(DEPLOYMENTS.as_bytes()).unwrap();
    let written = deployments.to_bytes().unwrap();
    let deployments_out = Deployment::from_bytes(&written).unwrap();
    assert_eq!(deployments, deployments_out);
}

#[test]
fn medium_to_file() {
    let data = Medium::from_bytes(media_content(423).as_bytes()).unwrap();
    let written = data.to_bytes().unwrap();
    let data_out = Medium::from_bytes(&written).unwrap();
    assert_eq!(data, data_out);
}

#[test]
fn observation_to_file() {
    let data = Observation::from_bytes(observations_content(549).as_bytes()).unwrap();
    let written = data.to_bytes().unwrap();
    let data_out = Observation::from_bytes(&written).unwrap();
    assert_eq!(data, data_out);
}

#[test]
fn deployments_keep_their_identifiers() {
    let deployments = Deployment::from_bytes(DEPLOYMENTS.as_bytes()).unwrap();
    let ids: Vec<&str> = deployments.iter().map(|d| d.deployment_id.as_str()).collect();
    assert_eq!(ids, vec!["00a2c20d", "29b7d356", "577b543a", "62c200a9"]);
    let written = deployments.to_bytes().unwrap();
    let again = Deployment::from_bytes(&written).unwrap();
    assert_eq!(again.len(), 4);
    assert_eq!(again, deployments);
}

#[test]
fn deployment_fields_are_read_by_column_name() {
    let deployments = Deployment::from_bytes(DEPLOYMENTS.as_bytes()).unwrap();
    let first = &deployments[0];
    assert_eq!(first.location_id.as_deref(), Some("e254a13c"));
    assert_eq!(first.location_name.as_deref(), Some("B_HS_val 2_processiepad"));
    assert_eq!(first.latitude.as_ref().map(|d| d.as_str()), Some("51.496"));
    assert_eq!(first.location_radius, None);
    assert_eq!(first.deployment_start.as_str(), "2020-05-30T02:57:37Z");
    assert_eq!(first.deployment_start.timestamp(), 1590807457);
    assert_eq!(first.deployment_start.offset_seconds(), 0);
    assert_eq!(first.setup_by, None);
    assert_eq!(first.camera_id.as_deref(), Some("320"));
    assert_eq!(first.camera_height.as_ref().map(|d| d.as_str()), Some("1.30"));
    assert_eq!(first.timestamp_issues, Some(false));
    assert_eq!(first.bait_use, Some(false));
    assert_eq!(first.feature_type, None);
    assert_eq!(first.tags, None);
    assert_eq!(first.comments, None);
    assert_eq!(deployments[1].feature_type, Some(FeatureType::Culvert));
    assert_eq!(deployments[2].feature_type, Some(FeatureType::TrailGame));
    assert_eq!(deployments[2].deployment_start.timestamp(), 1592593200);
    assert_eq!(deployments[2].deployment_start.offset_seconds(), 7200);
    assert_eq!(deployments[3].deployment_start.offset_seconds(), 3600);
}

#[test]
fn media_fields_are_typed() {
    let media = Medium::from_bytes(media_content(3).as_bytes()).unwrap();
    assert_eq!(media[0].media_id, "m0000");
    assert_eq!(media[0].capture_method, Some(CaptureMethod::ActivityDetection));
    assert_eq!(media[1].capture_method, Some(CaptureMethod::TimeLapse));
    assert!(media[0].file_public);
    assert!(!media[1].file_public);
    assert_eq!(media[0].file_mediatype, "image/jpeg");
    assert_eq!(media[0].favorite, Some(true));
    assert_eq!(media[1].favorite, None);
    assert_eq!(media[0].exif_data.as_ref().map(|d| d.as_str()), Some("{\"ISO\":400}"));
    assert_eq!(media[1].exif_data, None);
    assert_eq!(media[2].timestamp.timestamp(), 1590804002);
    assert_eq!(media[2].timestamp.subsec_nanos(), 0);
}

#[test]
fn observation_fields_are_typed() {
    let observations = Observation::from_bytes(observations_content(2).as_bytes()).unwrap();
    let first = &observations[0];
    assert_eq!(first.observation_level, ObservationLevel::Media);
    assert_eq!(first.observation_type, ObservationType::Animal);
    assert_eq!(first.count, Some(1));
    assert_eq!(first.life_stage, Some(LifeStage::Adult));
    assert_eq!(first.sex, Some(Sex::Female));
    assert_eq!(first.classification_method, Some(ClassificationMethod::Machine));
    assert_eq!(first.bbox_width.as_ref().map(|d| d.as_str()), Some("0.5"));
    assert_eq!(first.classification_probability.as_ref().map(|d| d.as_str()), Some("0.95"));
    let second = &observations[1];
    assert_eq!(second.observation_level, ObservationLevel::Event);
    assert_eq!(second.observation_type, ObservationType::Blank);
    assert_eq!(second.media_id, None);
    assert_eq!(second.count, None);
    assert_eq!(second.classification_method, Some(ClassificationMethod::Human));
    assert_eq!(second.classified_by.as_deref(), Some("Peter Desmet"));
}

#[test]
fn same_content_gives_equal_records_whatever_its_source() {
    let from_file = Deployment::from_bytes(DEPLOYMENTS.as_bytes()).unwrap();
    let body = bytes::Bytes::from(DEPLOYMENTS.as_bytes().to_vec());
    let from_url = Deployment::from_bytes(body.as_ref()).unwrap();
    assert_eq!(from_file.len(), from_url.len());
    for (a, b) in from_file.iter().zip(from_url.iter()) {
        assert_eq!(a, b);
    }
}

#[test]
fn exif_cell_holds_a_json_document() {
    let content = "mediaID,deploymentID,timestamp,filePath,filePublic,fileMediatype,exifData\n\
                   m1,d1,2023-01-01T10:00:00Z,a.jpg,true,image/jpeg,\"{\"\"ISO\"\":400}\"\n";
    let media = Medium::from_bytes(content.as_bytes()).unwrap();
    let exif = media[0].exif_data.as_ref().unwrap();
    let value: serde_json::Value = serde_json::from_str(exif.as_str()).unwrap();
    let mut object = serde_json::Map::new();
    object.insert(String::from("ISO"), serde_json::Value::from(400));
    assert_eq!(value, serde_json::Value::Object(object));

    let written = media.to_bytes().unwrap();
    let again = Medium::from_bytes(&written).unwrap();
    let value_again: serde_json::Value =
        serde_json::from_str(again[0].exif_data.as_ref().unwrap().as_str()).unwrap();
    assert_eq!(value_again, value);
}

#[test]
fn header_only_and_empty_content_hold_no_records() {
    assert_eq!(Deployment::from_bytes(b"").unwrap(), vec![]);
    assert_eq!(
        Deployment::from_bytes(b"deploymentID,deploymentStart,deploymentEnd\n").unwrap(),
        vec![]
    );
    let none: Vec<Deployment> = Vec::new();
    let written = none.to_bytes().unwrap();
    assert_eq!(
        String::from_utf8(written.clone()).unwrap(),
        "deploymentID,locationID,locationName,latitude,locationRadius,deploymentStart,deploymentEnd,setupBy,cameraID,cameraModel,cameraDelay,cameraHeight,cameraDepth,cameraAngle,cameraHeading,detectionDistance,timestampIssues,baitUse,featureType,habitat,deploymentGroups,tags,comments\n"
    );
    assert_eq!(Deployment::from_bytes(&written).unwrap(), vec![]);
}

#[test]
fn cells_are_quoted_where_csv_needs_it() {
    let content = "mediaID,deploymentID,timestamp,filePath,filePublic,fileMediatype,comments\n\
                   m1,d1,2023-01-01T10:00:00Z,a.jpg,true,image/jpeg,\"said \"\"hi\"\", left\"\n";
    let media = Medium::from_bytes(content.as_bytes()).unwrap();
    assert_eq!(media[0].comments.as_deref(), Some("said \"hi\", left"));
    let written = String::from_utf8(media.to_bytes().unwrap()).unwrap();
    assert_eq!(
        written,
        "mediaID,deploymentID,captureMethod,timestamp,filePath,filePublic,fileName,fileMediatype,exifData,favorite,comments\n\
         m1,d1,,2023-01-01T10:00:00Z,a.jpg,true,,image/jpeg,,,\"said \"\"hi\"\", left\"\n"
    );
}

#[test]
fn columns_may_come_in_any_order() {
    let content = "filePublic,timestamp,mediaID,fileMediatype,filePath,deploymentID\n\
                   false,2023-01-01T10:00:00-05:00,m1,video/mp4,clips/a.mp4,d1\n";
    let media = Medium::from_bytes(content.as_bytes()).unwrap();
    assert_eq!(media.len(), 1);
    assert_eq!(media[0].media_id, "m1");
    assert_eq!(media[0].deployment_id, "d1");
    assert_eq!(media[0].file_path, "clips/a.mp4");
    assert_eq!(media[0].file_mediatype, "video/mp4");
    assert!(!media[0].file_public);
    assert_eq!(media[0].timestamp.offset_seconds(), -18000);
    assert_eq!(media[0].timestamp.timestamp(), 1672585200);
}
