//! Observations: what was classified in a media file or an event.

use vstd::prelude::*;
use crate::codec::{schema_view, values_view, Field, FieldView};
use crate::datetime::DateTime;
use crate::decimal::Decimal;
use crate::record::{ReadDataPackageCsv, Record};
use crate::value::{FieldValue, Kind, Value, ValueView};
use crate::vocabulary::{
    CameraSetupType, ClassificationMethod, LifeStage, ObservationLevel, ObservationType, Sex,
};

verus! {

/// An observation derived from a media file or from an event.
#[derive(Debug, Clone, PartialEq)]
pub struct Observation {
    /// Unique identifier of the observation.
    pub observation_id: String,
    /// Identifier of the deployment that the observation belongs to.
    pub deployment_id: String,
    /// Identifier of the media file that was classified, for media-based
    /// observations.
    pub media_id: Option<String>,
    /// Identifier of the event that the observation belongs to.
    pub event_id: Option<String>,
    /// Date and time at which the event started.
    pub event_start: Option<DateTime>,
    /// Date and time at which the event ended.
    pub event_end: Option<DateTime>,
    /// Level at which the observation was classified.
    pub observation_level: ObservationLevel,
    /// Type of the observation.
    pub observation_type: ObservationType,
    /// Type of the camera setup action (if any) associated with the
    /// observation.
    pub camera_setup_type: Option<CameraSetupType>,
    /// Scientific name of the observed individual(s).
    pub scientific_name: Option<String>,
    /// Number of observed individuals.
    pub count: Option<u32>,
    /// Age class or life stage of the observed individual(s).
    pub life_stage: Option<LifeStage>,
    /// Sex of the observed individual(s).
    pub sex: Option<Sex>,
    /// Dominant behavior of the observed individual(s), separated by `|`.
    pub behavior: Option<String>,
    /// Identifier of the observed individual.
    pub individual_id: Option<String>,
    /// Distance in meters from the camera to the observed individual.
    pub individual_position_radius: Option<Decimal>,
    /// Angle in degrees from the camera's centerline to the observed
    /// individual.
    pub individual_position_angle: Option<Decimal>,
    /// Average speed of the observed individual in meters per second.
    pub individual_speed: Option<Decimal>,
    /// Horizontal position of the bounding box's top-left corner, relative to
    /// the width of the media file.
    pub bbox_x: Option<Decimal>,
    /// Vertical position of the bounding box's top-left corner, relative to the
    /// height of the media file.
    pub bbox_y: Option<Decimal>,
    /// Width of the bounding box, relative to the width of the media file.
    pub bbox_width: Option<Decimal>,
    /// Height of the bounding box, relative to the height of the media file.
    pub bbox_height: Option<Decimal>,
    /// Method (most recently) used to classify the observation.
    pub classification_method: Option<ClassificationMethod>,
    /// Person or algorithm that (most recently) classified the observation.
    pub classified_by: Option<String>,
    /// Date and time of the (most recent) classification.
    pub classification_timestamp: Option<DateTime>,
    /// Degree of certainty of the (most recent) classification, as a
    /// probability.
    pub classification_probability: Option<Decimal>,
    /// Tags of the observation, separated by `|`.
    pub observation_tags: Option<String>,
    /// Comments or notes about the observation.
    pub observation_comments: Option<String>,
}

impl Record for Observation {
    open spec fn fields() -> Seq<FieldView> {
        seq![
            FieldView::required("observation_id"@, "observationID"@, Kind::Text),
            FieldView::required("deployment_id"@, "deploymentID"@, Kind::Text),
            FieldView::optional("media_id"@, "mediaID"@, Kind::Text),
            FieldView::optional("event_id"@, "eventID"@, Kind::Text),
            FieldView::optional("event_start"@, "eventStart"@, Kind::DateTime),
            FieldView::optional("event_end"@, "eventEnd"@, Kind::DateTime),
            FieldView::required("observation_level"@, "observationLevel"@, Kind::ObservationLevel),
            FieldView::required("observation_type"@, "observationType"@, Kind::ObservationType),
            FieldView::optional("camera_setup_type"@, "cameraSetupType"@, Kind::CameraSetupType),
            FieldView::optional("scientific_name"@, "scientificName"@, Kind::Text),
            FieldView::optional("count"@, "count"@, Kind::Count),
            FieldView::optional("life_stage"@, "lifeStage"@, Kind::LifeStage),
            FieldView::optional("sex"@, "sex"@, Kind::Sex),
            FieldView::optional("behavior"@, "behavior"@, Kind::Text),
            FieldView::optional("individual_id"@, "individualID"@, Kind::Text),
            FieldView::optional(
                "individual_position_radius"@,
                "individualPositionRadius"@,
                Kind::Decimal,
            ),
            FieldView::optional(
                "individual_position_angle"@,
                "individualPositionAngle"@,
                Kind::Decimal,
            ),
            FieldView::optional("individual_speed"@, "individualSpeed"@, Kind::Decimal),
            FieldView::optional("bbox_x"@, "bboxX"@, Kind::Decimal),
            FieldView::optional("bbox_y"@, "bboxY"@, Kind::Decimal),
            FieldView::optional("bbox_width"@, "bboxWidth"@, Kind::Decimal),
            FieldView::optional("bbox_height"@, "bboxHeight"@, Kind::Decimal),
            FieldView::optional(
                "classification_method"@,
                "classificationMethod"@,
                Kind::ClassificationMethod,
            ),
            FieldView::optional("classified_by"@, "classifiedBy"@, Kind::Text),
            FieldView::optional(
                "classification_timestamp"@,
                "classificationTimestamp"@,
                Kind::DateTime,
            ),
            FieldView::optional(
                "classification_probability"@,
                "classificationProbability"@,
                Kind::Decimal,
            ),
            FieldView::optional("observation_tags"@, "observationTags"@, Kind::Text),
            FieldView::optional("observation_comments"@, "observationComments"@, Kind::Text),
        ]
    }

    open spec fn values(&self) -> Seq<ValueView> {
        seq![
            self.observation_id.as_value(),
            self.deployment_id.as_value(),
            self.media_id.as_value(),
            self.event_id.as_value(),
            self.event_start.as_value(),
            self.event_end.as_value(),
            self.observation_level.as_value(),
            self.observation_type.as_value(),
            self.camera_setup_type.as_value(),
            self.scientific_name.as_value(),
            self.count.as_value(),
            self.life_stage.as_value(),
            self.sex.as_value(),
            self.behavior.as_value(),
            self.individual_id.as_value(),
            self.individual_position_radius.as_value(),
            self.individual_position_angle.as_value(),
            self.individual_speed.as_value(),
            self.bbox_x.as_value(),
            self.bbox_y.as_value(),
            self.bbox_width.as_value(),
            self.bbox_height.as_value(),
            self.classification_method.as_value(),
            self.classified_by.as_value(),
            self.classification_timestamp.as_value(),
            self.classification_probability.as_value(),
            self.observation_tags.as_value(),
            self.observation_comments.as_value(),
        ]
    }

    fn schema() -> (s: Vec<Field>) {
        let s: Vec<Field> = vec![
            Field::required("observation_id", "observationID", Kind::Text),
            Field::required("deployment_id", "deploymentID", Kind::Text),
            Field::optional("media_id", "mediaID", Kind::Text),
            Field::optional("event_id", "eventID", Kind::Text),
            Field::optional("event_start", "eventStart", Kind::DateTime),
            Field::optional("event_end", "eventEnd", Kind::DateTime),
            Field::required("observation_level", "observationLevel", Kind::ObservationLevel),
            Field::required("observation_type", "observationType", Kind::ObservationType),
            Field::optional("camera_setup_type", "cameraSetupType", Kind::CameraSetupType),
            Field::optional("scientific_name", "scientificName", Kind::Text),
            Field::optional("count", "count", Kind::Count),
            Field::optional("life_stage", "lifeStage", Kind::LifeStage),
            Field::optional("sex", "sex", Kind::Sex),
            Field::optional("behavior", "behavior", Kind::Text),
            Field::optional("individual_id", "individualID", Kind::Text),
            Field::optional(
                "individual_position_radius",
                "individualPositionRadius",
                Kind::Decimal,
            ),
            Field::optional("individual_position_angle", "individualPositionAngle", Kind::Decimal),
            Field::optional("individual_speed", "individualSpeed", Kind::Decimal),
            Field::optional("bbox_x", "bboxX", Kind::Decimal),
            Field::optional("bbox_y", "bboxY", Kind::Decimal),
            Field::optional("bbox_width", "bboxWidth", Kind::Decimal),
            Field::optional("bbox_height", "bboxHeight", Kind::Decimal),
            Field::optional(
                "classification_method",
                "classificationMethod",
                Kind::ClassificationMethod,
            ),
            Field::optional("classified_by", "classifiedBy", Kind::Text),
            Field::optional("classification_timestamp", "classificationTimestamp", Kind::DateTime),
            Field::optional(
                "classification_probability",
                "classificationProbability",
                Kind::Decimal,
            ),
            Field::optional("observation_tags", "observationTags", Kind::Text),
            Field::optional("observation_comments", "observationComments", Kind::Text),
        ];
        assert(schema_view(s@) =~= Self::fields());
        s
    }

    fn to_values(&self) -> (v: Vec<Value>) {
        let v: Vec<Value> = vec![
            self.observation_id.to_value(),
            self.deployment_id.to_value(),
            self.media_id.to_value(),
            self.event_id.to_value(),
            self.event_start.to_value(),
            self.event_end.to_value(),
            self.observation_level.to_value(),
            self.observation_type.to_value(),
            self.camera_setup_type.to_value(),
            self.scientific_name.to_value(),
            self.count.to_value(),
            self.life_stage.to_value(),
            self.sex.to_value(),
            self.behavior.to_value(),
            self.individual_id.to_value(),
            self.individual_position_radius.to_value(),
            self.individual_position_angle.to_value(),
            self.individual_speed.to_value(),
            self.bbox_x.to_value(),
            self.bbox_y.to_value(),
            self.bbox_width.to_value(),
            self.bbox_height.to_value(),
            self.classification_method.to_value(),
            self.classified_by.to_value(),
            self.classification_timestamp.to_value(),
            self.classification_probability.to_value(),
            self.observation_tags.to_value(),
            self.observation_comments.to_value(),
        ];
        assert(values_view(v@) =~= self.values());
        v
    }

    fn from_values(values: &Vec<Value>) -> (r: Self) {
        let r = Observation {
            observation_id: String::of_value(&values[0]),
            deployment_id: String::of_value(&values[1]),
            media_id: Option::of_value(&values[2]),
            event_id: Option::of_value(&values[3]),
            event_start: Option::of_value(&values[4]),
            event_end: Option::of_value(&values[5]),
            observation_level: ObservationLevel::of_value(&values[6]),
            observation_type: ObservationType::of_value(&values[7]),
            camera_setup_type: Option::of_value(&values[8]),
            scientific_name: Option::of_value(&values[9]),
            count: Option::of_value(&values[10]),
            life_stage: Option::of_value(&values[11]),
            sex: Option::of_value(&values[12]),
            behavior: Option::of_value(&values[13]),
            individual_id: Option::of_value(&values[14]),
            individual_position_radius: Option::of_value(&values[15]),
            individual_position_angle: Option::of_value(&values[16]),
            individual_speed: Option::of_value(&values[17]),
            bbox_x: Option::of_value(&values[18]),
            bbox_y: Option::of_value(&values[19]),
            bbox_width: Option::of_value(&values[20]),
            bbox_height: Option::of_value(&values[21]),
            classification_method: Option::of_value(&values[22]),
            classified_by: Option::of_value(&values[23]),
            classification_timestamp: Option::of_value(&values[24]),
            classification_probability: Option::of_value(&values[25]),
            observation_tags: Option::of_value(&values[26]),
            observation_comments: Option::of_value(&values[27]),
        };
        assert(r.values() =~= values_view(values@));
        r
    }

    proof fn lemma_schema() {
        reveal_strlit("observationID");
        reveal_strlit("deploymentID");
        reveal_strlit("mediaID");
        reveal_strlit("eventID");
        reveal_strlit("eventStart");
        reveal_strlit("eventEnd");
        reveal_strlit("observationLevel");
        reveal_strlit("observationType");
        reveal_strlit("cameraSetupType");
        reveal_strlit("scientificName");
        reveal_strlit("count");
        reveal_strlit("lifeStage");
        reveal_strlit("sex");
        reveal_strlit("behavior");
        reveal_strlit("individualID");
        reveal_strlit("individualPositionRadius");
        reveal_strlit("individualPositionAngle");
        reveal_strlit("individualSpeed");
        reveal_strlit("bboxX");
        reveal_strlit("bboxY");
        reveal_strlit("bboxWidth");
        reveal_strlit("bboxHeight");
        reveal_strlit("classificationMethod");
        reveal_strlit("classifiedBy");
        reveal_strlit("classificationTimestamp");
        reveal_strlit("classificationProbability");
        reveal_strlit("observationTags");
        reveal_strlit("observationComments");
        assert("observationID"@.len() == 13);
        assert("deploymentID"@.len() == 12);
        assert("deploymentID"@[0] == 'd');
        assert("mediaID"@.len() == 7);
        assert("mediaID"@[0] == 'm');
        assert("eventID"@.len() == 7);
        assert("eventID"@[0] == 'e');
        assert("eventStart"@.len() == 10);
        assert("eventStart"@[0] == 'e');
        assert("eventEnd"@.len() == 8);
        assert("eventEnd"@[0] == 'e');
        assert("observationLevel"@.len() == 16);
        assert("observationType"@.len() == 15);
        assert("observationType"@[0] == 'o');
        assert("observationType"@[12] == 'y');
        assert("cameraSetupType"@.len() == 15);
        assert("cameraSetupType"@[0] == 'c');
        assert("scientificName"@.len() == 14);
        assert("count"@.len() == 5);
        assert("count"@[0] == 'c');
        assert("lifeStage"@.len() == 9);
        assert("lifeStage"@[0] == 'l');
        assert("sex"@.len() == 3);
        assert("behavior"@.len() == 8);
        assert("behavior"@[0] == 'b');
        assert("individualID"@.len() == 12);
        assert("individualID"@[0] == 'i');
        assert("individualPositionRadius"@.len() == 24);
        assert("individualPositionAngle"@.len() == 23);
        assert("individualPositionAngle"@[0] == 'i');
        assert("individualSpeed"@.len() == 15);
        assert("individualSpeed"@[0] == 'i');
        assert("bboxX"@.len() == 5);
        assert("bboxX"@[0] == 'b');
        assert("bboxX"@[4] == 'X');
        assert("bboxY"@.len() == 5);
        assert("bboxY"@[0] == 'b');
        assert("bboxY"@[4] == 'Y');
        assert("bboxWidth"@.len() == 9);
        assert("bboxWidth"@[0] == 'b');
        assert("bboxHeight"@.len() == 10);
        assert("bboxHeight"@[0] == 'b');
        assert("classificationMethod"@.len() == 20);
        assert("classifiedBy"@.len() == 12);
        assert("classifiedBy"@[0] == 'c');
        assert("classificationTimestamp"@.len() == 23);
        assert("classificationTimestamp"@[0] == 'c');
        assert("classificationProbability"@.len() == 25);
        assert("observationTags"@.len() == 15);
        assert("observationTags"@[0] == 'o');
        assert("observationTags"@[12] == 'a');
        assert("observationComments"@.len() == 19);
    }
}

impl ReadDataPackageCsv for Observation {}

} // verus!
