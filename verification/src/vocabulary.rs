//! The closed vocabularies of the data package. Each variant has exactly one
//! token; text outside the set names no variant.

use vstd::prelude::*;
use crate::text::same_text;

verus! {

/// Type of the feature (if any) associated with the deployment.
#[derive(Clone, Copy, Debug, PartialEq, Eq, Structural)]
pub enum FeatureType {
    RoadPaved,
    RoadDirt,
    TrailHiking,
    TrailGame,
    RoadUnderpass,
    RoadOverpass,
    RoadBridge,
    Culvert,
    Burrow,
    NestSite,
    Carcass,
    WaterSource,
    FruitingTree,
}

impl FeatureType {
    /// The token that stands for this variant in a cell.
    pub open spec fn token_text(self) -> Seq<char> {
        match self {
            FeatureType::RoadPaved => "roadPaved"@,
            FeatureType::RoadDirt => "roadDirt"@,
            FeatureType::TrailHiking => "trailHiking"@,
            FeatureType::TrailGame => "trailGame"@,
            FeatureType::RoadUnderpass => "roadUnderpass"@,
            FeatureType::RoadOverpass => "roadOverpass"@,
            FeatureType::RoadBridge => "roadBridge"@,
            FeatureType::Culvert => "culvert"@,
            FeatureType::Burrow => "burrow"@,
            FeatureType::NestSite => "nestSite"@,
            FeatureType::Carcass => "carcass"@,
            FeatureType::WaterSource => "waterSource"@,
            FeatureType::FruitingTree => "fruitingTree"@,
        }
    }

    /// The variant that a text names, if it is one of the tokens.
    pub open spec fn named_by(text: Seq<char>) -> Option<FeatureType> {
        if text == "roadPaved"@ {
            Some(FeatureType::RoadPaved)
        } else if text == "roadDirt"@ {
            Some(FeatureType::RoadDirt)
        } else if text == "trailHiking"@ {
            Some(FeatureType::TrailHiking)
        } else if text == "trailGame"@ {
            Some(FeatureType::TrailGame)
        } else if text == "roadUnderpass"@ {
            Some(FeatureType::RoadUnderpass)
        } else if text == "roadOverpass"@ {
            Some(FeatureType::RoadOverpass)
        } else if text == "roadBridge"@ {
            Some(FeatureType::RoadBridge)
        } else if text == "culvert"@ {
            Some(FeatureType::Culvert)
        } else if text == "burrow"@ {
            Some(FeatureType::Burrow)
        } else if text == "nestSite"@ {
            Some(FeatureType::NestSite)
        } else if text == "carcass"@ {
            Some(FeatureType::Carcass)
        } else if text == "waterSource"@ {
            Some(FeatureType::WaterSource)
        } else if text == "fruitingTree"@ {
            Some(FeatureType::FruitingTree)
        } else {
            None
        }
    }

    /// The token of this variant.
    pub fn token(&self) -> (t: &'static str)
        ensures
            t@ == self.token_text(),
    {
        match self {
            FeatureType::RoadPaved => "roadPaved",
            FeatureType::RoadDirt => "roadDirt",
            FeatureType::TrailHiking => "trailHiking",
            FeatureType::TrailGame => "trailGame",
            FeatureType::RoadUnderpass => "roadUnderpass",
            FeatureType::RoadOverpass => "roadOverpass",
            FeatureType::RoadBridge => "roadBridge",
            FeatureType::Culvert => "culvert",
            FeatureType::Burrow => "burrow",
            FeatureType::NestSite => "nestSite",
            FeatureType::Carcass => "carcass",
            FeatureType::WaterSource => "waterSource",
            FeatureType::FruitingTree => "fruitingTree",
        }
    }

    /// Reads a token. The match is exact and case-sensitive; any other
    /// text gives `None`.
    pub fn from_token(text: &str) -> (r: Option<FeatureType>)
        ensures
            r == Self::named_by(text@),
    {
        if same_text(text, "roadPaved") {
            Some(FeatureType::RoadPaved)
        } else if same_text(text, "roadDirt") {
            Some(FeatureType::RoadDirt)
        } else if same_text(text, "trailHiking") {
            Some(FeatureType::TrailHiking)
        } else if same_text(text, "trailGame") {
            Some(FeatureType::TrailGame)
        } else if same_text(text, "roadUnderpass") {
            Some(FeatureType::RoadUnderpass)
        } else if same_text(text, "roadOverpass") {
            Some(FeatureType::RoadOverpass)
        } else if same_text(text, "roadBridge") {
            Some(FeatureType::RoadBridge)
        } else if same_text(text, "culvert") {
            Some(FeatureType::Culvert)
        } else if same_text(text, "burrow") {
            Some(FeatureType::Burrow)
        } else if same_text(text, "nestSite") {
            Some(FeatureType::NestSite)
        } else if same_text(text, "carcass") {
            Some(FeatureType::Carcass)
        } else if same_text(text, "waterSource") {
            Some(FeatureType::WaterSource)
        } else if same_text(text, "fruitingTree") {
            Some(FeatureType::FruitingTree)
        } else {
            None
        }
    }

    /// Every variant is named by its own token and by no other text, and
    /// no token is empty.
    pub proof fn law_token_names_variant(v: FeatureType, text: Seq<char>)
        ensures
            Self::named_by(v.token_text()) == Some(v),
            Self::named_by(text) == Some(v) ==> text == v.token_text(),
            v.token_text().len() > 0,
    {
        reveal_strlit("roadPaved");
        reveal_strlit("roadDirt");
        reveal_strlit("trailHiking");
        reveal_strlit("trailGame");
        reveal_strlit("roadUnderpass");
        reveal_strlit("roadOverpass");
        reveal_strlit("roadBridge");
        reveal_strlit("culvert");
        reveal_strlit("burrow");
        reveal_strlit("nestSite");
        reveal_strlit("carcass");
        reveal_strlit("waterSource");
        reveal_strlit("fruitingTree");
        assert("roadPaved"@.len() == 9);
        assert("roadPaved"@[0] == 'r');
        assert("roadDirt"@.len() == 8);
        assert("roadDirt"@[0] == 'r');
        assert("trailHiking"@.len() == 11);
        assert("trailHiking"@[0] == 't');
        assert("trailGame"@.len() == 9);
        assert("trailGame"@[0] == 't');
        assert("roadUnderpass"@.len() == 13);
        assert("roadOverpass"@.len() == 12);
        assert("roadOverpass"@[0] == 'r');
        assert("roadBridge"@.len() == 10);
        assert("culvert"@.len() == 7);
        assert("culvert"@[1] == 'u');
        assert("burrow"@.len() == 6);
        assert("nestSite"@.len() == 8);
        assert("nestSite"@[0] == 'n');
        assert("carcass"@.len() == 7);
        assert("carcass"@[1] == 'a');
        assert("waterSource"@.len() == 11);
        assert("waterSource"@[0] == 'w');
        assert("fruitingTree"@.len() == 12);
        assert("fruitingTree"@[0] == 'f');
    }
}

/// Method used to capture the media file.
#[derive(Clone, Copy, Debug, PartialEq, Eq, Structural)]
pub enum CaptureMethod {
    ActivityDetection,
    TimeLapse,
}

impl CaptureMethod {
    /// The token that stands for this variant in a cell.
    pub open spec fn token_text(self) -> Seq<char> {
        match self {
            CaptureMethod::ActivityDetection => "activityDetection"@,
            CaptureMethod::TimeLapse => "timeLapse"@,
        }
    }

    /// The variant that a text names, if it is one of the tokens.
    pub open spec fn named_by(text: Seq<char>) -> Option<CaptureMethod> {
        if text == "activityDetection"@ {
            Some(CaptureMethod::ActivityDetection)
        } else if text == "timeLapse"@ {
            Some(CaptureMethod::TimeLapse)
        } else {
            None
        }
    }

    /// The token of this variant.
    pub fn token(&self) -> (t: &'static str)
        ensures
            t@ == self.token_text(),
    {
        match self {
            CaptureMethod::ActivityDetection => "activityDetection",
            CaptureMethod::TimeLapse => "timeLapse",
        }
    }

    /// Reads a token. The match is exact and case-sensitive; any other
    /// text gives `None`.
    pub fn from_token(text: &str) -> (r: Option<CaptureMethod>)
        ensures
            r == Self::named_by(text@),
    {
        if same_text(text, "activityDetection") {
            Some(CaptureMethod::ActivityDetection)
        } else if same_text(text, "timeLapse") {
            Some(CaptureMethod::TimeLapse)
        } else {
            None
        }
    }

    /// Every variant is named by its own token and by no other text, and
    /// no token is empty.
    pub proof fn law_token_names_variant(v: CaptureMethod, text: Seq<char>)
        ensures
            Self::named_by(v.token_text()) == Some(v),
            Self::named_by(text) == Some(v) ==> text == v.token_text(),
            v.token_text().len() > 0,
    {
        reveal_strlit("activityDetection");
        reveal_strlit("timeLapse");
        assert("activityDetection"@.len() == 17);
        assert("timeLapse"@.len() == 9);
    }
}

/// Level at which the observation was classified.
#[derive(Clone, Copy, Debug, PartialEq, Eq, Structural)]
pub enum ObservationLevel {
    Media,
    Event,
}

impl ObservationLevel {
    /// The token that stands for this variant in a cell.
    pub open spec fn token_text(self) -> Seq<char> {
        match self {
            ObservationLevel::Media => "media"@,
            ObservationLevel::Event => "event"@,
        }
    }

    /// The variant that a text names, if it is one of the tokens.
    pub open spec fn named_by(text: Seq<char>) -> Option<ObservationLevel> {
        if text == "media"@ {
            Some(ObservationLevel::Media)
        } else if text == "event"@ {
            Some(ObservationLevel::Event)
        } else {
            None
        }
    }

    /// The token of this variant.
    pub fn token(&self) -> (t: &'static str)
        ensures
            t@ == self.token_text(),
    {
        match self {
            ObservationLevel::Media => "media",
            ObservationLevel::Event => "event",
        }
    }

    /// Reads a token. The match is exact and case-sensitive; any other
    /// text gives `None`.
    pub fn from_token(text: &str) -> (r: Option<ObservationLevel>)
        ensures
            r == Self::named_by(text@),
    {
        if same_text(text, "media") {
            Some(ObservationLevel::Media)
        } else if same_text(text, "event") {
            Some(ObservationLevel::Event)
        } else {
            None
        }
    }

    /// Every variant is named by its own token and by no other text, and
    /// no token is empty.
    pub proof fn law_token_names_variant(v: ObservationLevel, text: Seq<char>)
        ensures
            Self::named_by(v.token_text()) == Some(v),
            Self::named_by(text) == Some(v) ==> text == v.token_text(),
            v.token_text().len() > 0,
    {
        reveal_strlit("media");
        reveal_strlit("event");
        assert("media"@.len() == 5);
        assert("media"@[0] == 'm');
        assert("event"@.len() == 5);
        assert("event"@[0] == 'e');
    }
}

/// Type of the observation.
#[derive(Clone, Copy, Debug, PartialEq, Eq, Structural)]
pub enum ObservationType {
    Animal,
    Human,
    Vehicle,
    Blank,
    Unknown,
    Unclassified,
}

impl ObservationType {
    /// The token that stands for this variant in a cell.
    pub open spec fn token_text(self) -> Seq<char> {
        match self {
            ObservationType::Animal => "animal"@,
            ObservationType::Human => "human"@,
            ObservationType::Vehicle => "vehicle"@,
            ObservationType::Blank => "blank"@,
            ObservationType::Unknown => "unknown"@,
            ObservationType::Unclassified => "unclassified"@,
        }
    }

    /// The variant that a text names, if it is one of the tokens.
    pub open spec fn named_by(text: Seq<char>) -> Option<ObservationType> {
        if text == "animal"@ {
            Some(ObservationType::Animal)
        } else if text == "human"@ {
            Some(ObservationType::Human)
        } else if text == "vehicle"@ {
            Some(ObservationType::Vehicle)
        } else if text == "blank"@ {
            Some(ObservationType::Blank)
        } else if text == "unknown"@ {
            Some(ObservationType::Unknown)
        } else if text == "unclassified"@ {
            Some(ObservationType::Unclassified)
        } else {
            None
        }
    }

    /// The token of this variant.
    pub fn token(&self) -> (t: &'static str)
        ensures
            t@ == self.token_text(),
    {
        match self {
            ObservationType::Animal => "animal",
            ObservationType::Human => "human",
            ObservationType::Vehicle => "vehicle",
            ObservationType::Blank => "blank",
            ObservationType::Unknown => "unknown",
            ObservationType::Unclassified => "unclassified",
        }
    }

    /// Reads a token. The match is exact and case-sensitive; any other
    /// text gives `None`.
    pub fn from_token(text: &str) -> (r: Option<ObservationType>)
        ensures
            r == Self::named_by(text@),
    {
        if same_text(text, "animal") {
            Some(ObservationType::Animal)
        } else if same_text(text, "human") {
            Some(ObservationType::Human)
        } else if same_text(text, "vehicle") {
            Some(ObservationType::Vehicle)
        } else if same_text(text, "blank") {
            Some(ObservationType::Blank)
        } else if same_text(text, "unknown") {
            Some(ObservationType::Unknown)
        } else if same_text(text, "unclassified") {
            Some(ObservationType::Unclassified)
        } else {
            None
        }
    }

    /// Every variant is named by its own token and by no other text, and
    /// no token is empty.
    pub proof fn law_token_names_variant(v: ObservationType, text: Seq<char>)
        ensures
            Self::named_by(v.token_text()) == Some(v),
            Self::named_by(text) == Some(v) ==> text == v.token_text(),
            v.token_text().len() > 0,
    {
        reveal_strlit("animal");
        reveal_strlit("human");
        reveal_strlit("vehicle");
        reveal_strlit("blank");
        reveal_strlit("unknown");
        reveal_strlit("unclassified");
        assert("animal"@.len() == 6);
        assert("human"@.len() == 5);
        assert("human"@[0] == 'h');
        assert("vehicle"@.len() == 7);
        assert("vehicle"@[0] == 'v');
        assert("blank"@.len() == 5);
        assert("blank"@[0] == 'b');
        assert("unknown"@.len() == 7);
        assert("unknown"@[0] == 'u');
        assert("unclassified"@.len() == 12);
    }
}

/// Type of the camera setup action associated with the observation.
#[derive(Clone, Copy, Debug, PartialEq, Eq, Structural)]
pub enum CameraSetupType {
    Setup,
    Calibration,
}

impl CameraSetupType {
    /// The token that stands for this variant in a cell.
    pub open spec fn token_text(self) -> Seq<char> {
        match self {
            CameraSetupType::Setup => "setup"@,
            CameraSetupType::Calibration => "calibration"@,
        }
    }

    /// The variant that a text names, if it is one of the tokens.
    pub open spec fn named_by(text: Seq<char>) -> Option<CameraSetupType> {
        if text == "setup"@ {
            Some(CameraSetupType::Setup)
        } else if text == "calibration"@ {
            Some(CameraSetupType::Calibration)
        } else {
            None
        }
    }

    /// The token of this variant.
    pub fn token(&self) -> (t: &'static str)
        ensures
            t@ == self.token_text(),
    {
        match self {
            CameraSetupType::Setup => "setup",
            CameraSetupType::Calibration => "calibration",
        }
    }

    /// Reads a token. The match is exact and case-sensitive; any other
    /// text gives `None`.
    pub fn from_token(text: &str) -> (r: Option<CameraSetupType>)
        ensures
            r == Self::named_by(text@),
    {
        if same_text(text, "setup") {
            Some(CameraSetupType::Setup)
        } else if same_text(text, "calibration") {
            Some(CameraSetupType::Calibration)
        } else {
            None
        }
    }

    /// Every variant is named by its own token and by no other text, and
    /// no token is empty.
    pub proof fn law_token_names_variant(v: CameraSetupType, text: Seq<char>)
        ensures
            Self::named_by(v.token_text()) == Some(v),
            Self::named_by(text) == Some(v) ==> text == v.token_text(),
            v.token_text().len() > 0,
    {
        reveal_strlit("setup");
        reveal_strlit("calibration");
        assert("setup"@.len() == 5);
        assert("calibration"@.len() == 11);
    }
}

/// Life stage of the observed individual(s).
#[derive(Clone, Copy, Debug, PartialEq, Eq, Structural)]
pub enum LifeStage {
    Adult,
    Subadult,
    Juvenile,
}

impl LifeStage {
    /// The token that stands for this variant in a cell.
    pub open spec fn token_text(self) -> Seq<char> {
        match self {
            LifeStage::Adult => "adult"@,
            LifeStage::Subadult => "subadult"@,
            LifeStage::Juvenile => "juvenile"@,
        }
    }

    /// The variant that a text names, if it is one of the tokens.
    pub open spec fn named_by(text: Seq<char>) -> Option<LifeStage> {
        if text == "adult"@ {
            Some(LifeStage::Adult)
        } else if text == "subadult"@ {
            Some(LifeStage::Subadult)
        } else if text == "juvenile"@ {
            Some(LifeStage::Juvenile)
        } else {
            None
        }
    }

    /// The token of this variant.
    pub fn token(&self) -> (t: &'static str)
        ensures
            t@ == self.token_text(),
    {
        match self {
            LifeStage::Adult => "adult",
            LifeStage::Subadult => "subadult",
            LifeStage::Juvenile => "juvenile",
        }
    }

    /// Reads a token. The match is exact and case-sensitive; any other
    /// text gives `None`.
    pub fn from_token(text: &str) -> (r: Option<LifeStage>)
        ensures
            r == Self::named_by(text@),
    {
        if same_text(text, "adult") {
            Some(LifeStage::Adult)
        } else if same_text(text, "subadult") {
            Some(LifeStage::Subadult)
        } else if same_text(text, "juvenile") {
            Some(LifeStage::Juvenile)
        } else {
            None
        }
    }

    /// Every variant is named by its own token and by no other text, and
    /// no token is empty.
    pub proof fn law_token_names_variant(v: LifeStage, text: Seq<char>)
        ensures
            Self::named_by(v.token_text()) == Some(v),
            Self::named_by(text) == Some(v) ==> text == v.token_text(),
            v.token_text().len() > 0,
    {
        reveal_strlit("adult");
        reveal_strlit("subadult");
        reveal_strlit("juvenile");
        assert("adult"@.len() == 5);
        assert("subadult"@.len() == 8);
        assert("subadult"@[0] == 's');
        assert("juvenile"@.len() == 8);
        assert("juvenile"@[0] == 'j');
    }
}

/// Sex of the observed individual(s).
#[derive(Clone, Copy, Debug, PartialEq, Eq, Structural)]
pub enum Sex {
    Female,
    Male,
}

impl Sex {
    /// The token that stands for this variant in a cell.
    pub open spec fn token_text(self) -> Seq<char> {
        match self {
            Sex::Female => "female"@,
            Sex::Male => "male"@,
        }
    }

    /// The variant that a text names, if it is one of the tokens.
    pub open spec fn named_by(text: Seq<char>) -> Option<Sex> {
        if text == "female"@ {
            Some(Sex::Female)
        } else if text == "male"@ {
            Some(Sex::Male)
        } else {
            None
        }
    }

    /// The token of this variant.
    pub fn token(&self) -> (t: &'static str)
        ensures
            t@ == self.token_text(),
    {
        match self {
            Sex::Female => "female",
            Sex::Male => "male",
        }
    }

    /// Reads a token. The match is exact and case-sensitive; any other
    /// text gives `None`.
    pub fn from_token(text: &str) -> (r: Option<Sex>)
        ensures
            r == Self::named_by(text@),
    {
        if same_text(text, "female") {
            Some(Sex::Female)
        } else if same_text(text, "male") {
            Some(Sex::Male)
        } else {
            None
        }
    }

    /// Every variant is named by its own token and by no other text, and
    /// no token is empty.
    pub proof fn law_token_names_variant(v: Sex, text: Seq<char>)
        ensures
            Self::named_by(v.token_text()) == Some(v),
            Self::named_by(text) == Some(v) ==> text == v.token_text(),
            v.token_text().len() > 0,
    {
        reveal_strlit("female");
        reveal_strlit("male");
        assert("female"@.len() == 6);
        assert("male"@.len() == 4);
    }
}

/// Method used to classify the observation.
#[derive(Clone, Copy, Debug, PartialEq, Eq, Structural)]
pub enum ClassificationMethod {
    Human,
    Machine,
}

impl ClassificationMethod {
    /// The token that stands for this variant in a cell.
    pub open spec fn token_text(self) -> Seq<char> {
        match self {
            ClassificationMethod::Human => "human"@,
            ClassificationMethod::Machine => "machine"@,
        }
    }

    /// The variant that a text names, if it is one of the tokens.
    pub open spec fn named_by(text: Seq<char>) -> Option<ClassificationMethod> {
        if text == "human"@ {
            Some(ClassificationMethod::Human)
        } else if text == "machine"@ {
            Some(ClassificationMethod::Machine)
        } else {
            None
        }
    }

    /// The token of this variant.
    pub fn token(&self) -> (t: &'static str)
        ensures
            t@ == self.token_text(),
    {
        match self {
            ClassificationMethod::Human => "human",
            ClassificationMethod::Machine => "machine",
        }
    }

    /// Reads a token. The match is exact and case-sensitive; any other
    /// text gives `None`.
    pub fn from_token(text: &str) -> (r: Option<ClassificationMethod>)
        ensures
            r == Self::named_by(text@),
    {
        if same_text(text, "human") {
            Some(ClassificationMethod::Human)
        } else if same_text(text, "machine") {
            Some(ClassificationMethod::Machine)
        } else {
            None
        }
    }

    /// Every variant is named by its own token and by no other text, and
    /// no token is empty.
    pub proof fn law_token_names_variant(v: ClassificationMethod, text: Seq<char>)
        ensures
            Self::named_by(v.token_text()) == Some(v),
            Self::named_by(text) == Some(v) ==> text == v.token_text(),
            v.token_text().len() > 0,
    {
        reveal_strlit("human");
        reveal_strlit("machine");
        assert("human"@.len() == 5);
        assert("machine"@.len() == 7);
    }
}

} // verus!
