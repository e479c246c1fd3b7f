//! Deployments: where and when a camera was placed.

use vstd::prelude::*;
use crate::codec::{schema_view, values_view, Field, FieldView};
use crate::datetime::DateTime;
use crate::decimal::Decimal;
use crate::record::{ReadDataPackageCsv, Record};
use crate::value::{FieldValue, Kind, Value, ValueView};
use crate::vocabulary::FeatureType;

verus! {

/// Camera trap placement (deployment).
#[derive(Debug, Clone, PartialEq)]
pub struct Deployment {
    /// Unique identifier of the deployment.
    pub deployment_id: String,
    /// Identifier of the deployment location.
    pub location_id: Option<String>,
    /// Name given to the deployment location.
    pub location_name: Option<String>,
    /// Latitude of the deployment location in decimal degrees (WGS84).
    pub latitude: Option<Decimal>,
    /// Radius in meters of the smallest circle around the coordinates that
    /// contains the deployment location.
    pub location_radius: Option<Decimal>,
    /// Date and time at which the deployment was started.
    pub deployment_start: DateTime,
    /// Date and time at which the deployment was ended.
    pub deployment_end: DateTime,
    /// Person or organization that deployed the camera.
    pub setup_by: Option<String>,
    /// Identifier of the camera, such as its serial number.
    pub camera_id: Option<String>,
    /// Manufacturer and model of the camera.
    pub camera_model: Option<String>,
    /// Seconds after a detection during which further activity is ignored.
    pub camera_delay: Option<Decimal>,
    /// Height in meters at which the camera was deployed.
    pub camera_height: Option<Decimal>,
    /// Depth in meters at which the camera was deployed.
    pub camera_depth: Option<Decimal>,
    /// Vertical angle of the camera in degrees: -90 facing down, 0 horizontal,
    /// 90 facing up.
    pub camera_angle: Option<Decimal>,
    /// Horizontal angle of the camera in degrees clockwise from north.
    pub camera_heading: Option<Decimal>,
    /// Largest distance in meters at which the camera reliably detects
    /// activity.
    pub detection_distance: Option<Decimal>,
    /// Whether the timestamps of the deployment's media are known to be wrong.
    pub timestamp_issues: Option<bool>,
    /// Whether bait was used.
    pub bait_use: Option<bool>,
    /// Type of the feature (if any) associated with the deployment.
    pub feature_type: Option<FeatureType>,
    /// Short characterization of the habitat at the location.
    pub habitat: Option<String>,
    /// Groups that the deployment belongs to, separated by `|`.
    pub deployment_groups: Option<String>,
    /// Tags of the deployment, separated by `|`.
    pub tags: Option<String>,
    /// Comments or notes about the deployment.
    pub comments: Option<String>,
}

impl Record for Deployment {
    open spec fn fields() -> Seq<FieldView> {
        seq![
            FieldView::required("deployment_id"@, "deploymentID"@, Kind::Text),
            FieldView::optional("location_id"@, "locationID"@, Kind::Text),
            FieldView::optional("location_name"@, "locationName"@, Kind::Text),
            FieldView::optional("latitude"@, "latitude"@, Kind::Decimal),
            FieldView::optional("location_radius"@, "locationRadius"@, Kind::Decimal),
            FieldView::required("deployment_start"@, "deploymentStart"@, Kind::DateTime),
            FieldView::required("deployment_end"@, "deploymentEnd"@, Kind::DateTime),
            FieldView::optional("setup_by"@, "setupBy"@, Kind::Text),
            FieldView::optional("camera_id"@, "cameraID"@, Kind::Text),
            FieldView::optional("camera_model"@, "cameraModel"@, Kind::Text),
            FieldView::optional("camera_delay"@, "cameraDelay"@, Kind::Decimal),
            FieldView::optional("camera_height"@, "cameraHeight"@, Kind::Decimal),
            FieldView::optional("camera_depth"@, "cameraDepth"@, Kind::Decimal),
            FieldView::optional("camera_angle"@, "cameraAngle"@, Kind::Decimal),
            FieldView::optional("camera_heading"@, "cameraHeading"@, Kind::Decimal),
            FieldView::optional("detection_distance"@, "detectionDistance"@, Kind::Decimal),
            FieldView::optional("timestamp_issues"@, "timestampIssues"@, Kind::Flag),
            FieldView::optional("bait_use"@, "baitUse"@, Kind::Flag),
            FieldView::optional("feature_type"@, "featureType"@, Kind::FeatureType),
            FieldView::optional("habitat"@, "habitat"@, Kind::Text),
            FieldView::optional("deployment_groups"@, "deploymentGroups"@, Kind::Text),
            FieldView::optional("tags"@, "tags"@, Kind::Text),
            FieldView::optional("comments"@, "comments"@, Kind::Text),
        ]
    }

    open spec fn values(&self) -> Seq<ValueView> {
        seq![
            self.deployment_id.as_value(),
            self.location_id.as_value(),
            self.location_name.as_value(),
            self.latitude.as_value(),
            self.location_radius.as_value(),
            self.deployment_start.as_value(),
            self.deployment_end.as_value(),
            self.setup_by.as_value(),
            self.camera_id.as_value(),
            self.camera_model.as_value(),
            self.camera_delay.as_value(),
            self.camera_height.as_value(),
            self.camera_depth.as_value(),
            self.camera_angle.as_value(),
            self.camera_heading.as_value(),
            self.detection_distance.as_value(),
            self.timestamp_issues.as_value(),
            self.bait_use.as_value(),
            self.feature_type.as_value(),
            self.habitat.as_value(),
            self.deployment_groups.as_value(),
            self.tags.as_value(),
            self.comments.as_value(),
        ]
    }

    fn schema() -> (s: Vec<Field>) {
        let s: Vec<Field> = vec![
            Field::required("deployment_id", "deploymentID", Kind::Text),
            Field::optional("location_id", "locationID", Kind::Text),
            Field::optional("location_name", "locationName", Kind::Text),
            Field::optional("latitude", "latitude", Kind::Decimal),
            Field::optional("location_radius", "locationRadius", Kind::Decimal),
            Field::required("deployment_start", "deploymentStart", Kind::DateTime),
            Field::required("deployment_end", "deploymentEnd", Kind::DateTime),
            Field::optional("setup_by", "setupBy", Kind::Text),
            Field::optional("camera_id", "cameraID", Kind::Text),
            Field::optional("camera_model", "cameraModel", Kind::Text),
            Field::optional("camera_delay", "cameraDelay", Kind::Decimal),
            Field::optional("camera_height", "cameraHeight", Kind::Decimal),
            Field::optional("camera_depth", "cameraDepth", Kind::Decimal),
            Field::optional("camera_angle", "cameraAngle", Kind::Decimal),
            Field::optional("camera_heading", "cameraHeading", Kind::Decimal),
            Field::optional("detection_distance", "detectionDistance", Kind::Decimal),
            Field::optional("timestamp_issues", "timestampIssues", Kind::Flag),
            Field::optional("bait_use", "baitUse", Kind::Flag),
            Field::optional("feature_type", "featureType", Kind::FeatureType),
            Field::optional("habitat", "habitat", Kind::Text),
            Field::optional("deployment_groups", "deploymentGroups", Kind::Text),
            Field::optional("tags", "tags", Kind::Text),
            Field::optional("comments", "comments", Kind::Text),
        ];
        assert(schema_view(s@) =~= Self::fields());
        s
    }

    fn to_values(&self) -> (v: Vec<Value>) {
        let v: Vec<Value> = vec![
            self.deployment_id.to_value(),
            self.location_id.to_value(),
            self.location_name.to_value(),
            self.latitude.to_value(),
            self.location_radius.to_value(),
            self.deployment_start.to_value(),
            self.deployment_end.to_value(),
            self.setup_by.to_value(),
            self.camera_id.to_value(),
            self.camera_model.to_value(),
            self.camera_delay.to_value(),
            self.camera_height.to_value(),
            self.camera_depth.to_value(),
            self.camera_angle.to_value(),
            self.camera_heading.to_value(),
            self.detection_distance.to_value(),
            self.timestamp_issues.to_value(),
            self.bait_use.to_value(),
            self.feature_type.to_value(),
            self.habitat.to_value(),
            self.deployment_groups.to_value(),
            self.tags.to_value(),
            self.comments.to_value(),
        ];
        assert(values_view(v@) =~= self.values());
        v
    }

    fn from_values(values: &Vec<Value>) -> (r: Self) {
        let r = Deployment {
            deployment_id: String::of_value(&values[0]),
            location_id: Option::of_value(&values[1]),
            location_name: Option::of_value(&values[2]),
            latitude: Option::of_value(&values[3]),
            location_radius: Option::of_value(&values[4]),
            deployment_start: DateTime::of_value(&values[5]),
            deployment_end: DateTime::of_value(&values[6]),
            setup_by: Option::of_value(&values[7]),
            camera_id: Option::of_value(&values[8]),
            camera_model: Option::of_value(&values[9]),
            camera_delay: Option::of_value(&values[10]),
            camera_height: Option::of_value(&values[11]),
            camera_depth: Option::of_value(&values[12]),
            camera_angle: Option::of_value(&values[13]),
            camera_heading: Option::of_value(&values[14]),
            detection_distance: Option::of_value(&values[15]),
            timestamp_issues: Option::of_value(&values[16]),
            bait_use: Option::of_value(&values[17]),
            feature_type: Option::of_value(&values[18]),
            habitat: Option::of_value(&values[19]),
            deployment_groups: Option::of_value(&values[20]),
            tags: Option::of_value(&values[21]),
            comments: Option::of_value(&values[22]),
        };
        assert(r.values() =~= values_view(values@));
        r
    }

    proof fn lemma_schema() {
        reveal_strlit("deploymentID");
        reveal_strlit("locationID");
        reveal_strlit("locationName");
        reveal_strlit("latitude");
        reveal_strlit("locationRadius");
        reveal_strlit("deploymentStart");
        reveal_strlit("deploymentEnd");
        reveal_strlit("setupBy");
        reveal_strlit("cameraID");
        reveal_strlit("cameraModel");
        reveal_strlit("cameraDelay");
        reveal_strlit("cameraHeight");
        reveal_strlit("cameraDepth");
        reveal_strlit("cameraAngle");
        reveal_strlit("cameraHeading");
        reveal_strlit("detectionDistance");
        reveal_strlit("timestampIssues");
        reveal_strlit("baitUse");
        reveal_strlit("featureType");
        reveal_strlit("habitat");
        reveal_strlit("deploymentGroups");
        reveal_strlit("tags");
        reveal_strlit("comments");
        assert("deploymentID"@.len() == 12);
        assert("deploymentID"@[0] == 'd');
        assert("locationID"@.len() == 10);
        assert("locationName"@.len() == 12);
        assert("locationName"@[0] == 'l');
        assert("latitude"@.len() == 8);
        assert("latitude"@[0] == 'l');
        assert("locationRadius"@.len() == 14);
        assert("deploymentStart"@.len() == 15);
        assert("deploymentStart"@[0] == 'd');
        assert("deploymentEnd"@.len() == 13);
        assert("deploymentEnd"@[0] == 'd');
        assert("setupBy"@.len() == 7);
        assert("setupBy"@[0] == 's');
        assert("cameraID"@.len() == 8);
        assert("cameraID"@[0] == 'c');
        assert("cameraID"@[1] == 'a');
        assert("cameraModel"@.len() == 11);
        assert("cameraModel"@[0] == 'c');
        assert("cameraModel"@[6] == 'M');
        assert("cameraDelay"@.len() == 11);
        assert("cameraDelay"@[0] == 'c');
        assert("cameraDelay"@[6] == 'D');
        assert("cameraDelay"@[8] == 'l');
        assert("cameraHeight"@.len() == 12);
        assert("cameraHeight"@[0] == 'c');
        assert("cameraDepth"@.len() == 11);
        assert("cameraDepth"@[0] == 'c');
        assert("cameraDepth"@[6] == 'D');
        assert("cameraDepth"@[8] == 'p');
        assert("cameraAngle"@.len() == 11);
        assert("cameraAngle"@[0] == 'c');
        assert("cameraAngle"@[6] == 'A');
        assert("cameraHeading"@.len() == 13);
        assert("cameraHeading"@[0] == 'c');
        assert("detectionDistance"@.len() == 17);
        assert("timestampIssues"@.len() == 15);
        assert("timestampIssues"@[0] == 't');
        assert("baitUse"@.len() == 7);
        assert("baitUse"@[0] == 'b');
        assert("featureType"@.len() == 11);
        assert("featureType"@[0] == 'f');
        assert("habitat"@.len() == 7);
        assert("habitat"@[0] == 'h');
        assert("deploymentGroups"@.len() == 16);
        assert("tags"@.len() == 4);
        assert("comments"@.len() == 8);
        assert("comments"@[0] == 'c');
        assert("comments"@[1] == 'o');
    }
}

impl ReadDataPackageCsv for Deployment {}

} // verus!
