//! Media: the files recorded during a deployment.

use vstd::prelude::*;
use crate::codec::{schema_view, values_view, Field, FieldView};
use crate::datetime::DateTime;
use crate::exif::ExifData;
use crate::record::{ReadDataPackageCsv, Record};
use crate::value::{FieldValue, Kind, Value, ValueView};
use crate::vocabulary::CaptureMethod;

verus! {

/// Media file recorded during a deployment.
#[derive(Debug, Clone, PartialEq)]
pub struct Medium {
    /// Unique identifier of the media file.
    pub media_id: String,
    /// Identifier of the deployment that the media file belongs to.
    pub deployment_id: String,
    /// Method used to capture the media file.
    pub capture_method: Option<CaptureMethod>,
    /// Date and time at which the media file was recorded.
    pub timestamp: DateTime,
    /// URL or relative path of the media file.
    pub file_path: String,
    /// Whether the media file is publicly accessible.
    pub file_public: bool,
    /// Name of the media file.
    pub file_name: Option<String>,
    /// Media type of the file, as an IANA media type.
    pub file_mediatype: String,
    /// EXIF data of the media file, a JSON document.
    pub exif_data: Option<ExifData>,
    /// Whether the media file is deemed of interest.
    pub favorite: Option<bool>,
    /// Comments or notes about the media file.
    pub comments: Option<String>,
}

impl Record for Medium {
    open spec fn fields() -> Seq<FieldView> {
        seq![
            FieldView::required("media_id"@, "mediaID"@, Kind::Text),
            FieldView::required("deployment_id"@, "deploymentID"@, Kind::Text),
            FieldView::optional("capture_method"@, "captureMethod"@, Kind::CaptureMethod),
            FieldView::required("timestamp"@, "timestamp"@, Kind::DateTime),
            FieldView::required("file_path"@, "filePath"@, Kind::Text),
            FieldView::required("file_public"@, "filePublic"@, Kind::Flag),
            FieldView::optional("file_name"@, "fileName"@, Kind::Text),
            FieldView::required("file_mediatype"@, "fileMediatype"@, Kind::Text),
            FieldView::optional("exif_data"@, "exifData"@, Kind::Exif),
            FieldView::optional("favorite"@, "favorite"@, Kind::Flag),
            FieldView::optional("comments"@, "comments"@, Kind::Text),
        ]
    }

    open spec fn values(&self) -> Seq<ValueView> {
        seq![
            self.media_id.as_value(),
            self.deployment_id.as_value(),
            self.capture_method.as_value(),
            self.timestamp.as_value(),
            self.file_path.as_value(),
            self.file_public.as_value(),
            self.file_name.as_value(),
            self.file_mediatype.as_value(),
            self.exif_data.as_value(),
            self.favorite.as_value(),
            self.comments.as_value(),
        ]
    }

    fn schema() -> (s: Vec<Field>) {
        let s: Vec<Field> = vec![
            Field::required("media_id", "mediaID", Kind::Text),
            Field::required("deployment_id", "deploymentID", Kind::Text),
            Field::optional("capture_method", "captureMethod", Kind::CaptureMethod),
            Field::required("timestamp", "timestamp", Kind::DateTime),
            Field::required("file_path", "filePath", Kind::Text),
            Field::required("file_public", "filePublic", Kind::Flag),
            Field::optional("file_name", "fileName", Kind::Text),
            Field::required("file_mediatype", "fileMediatype", Kind::Text),
            Field::optional("exif_data", "exifData", Kind::Exif),
            Field::optional("favorite", "favorite", Kind::Flag),
            Field::optional("comments", "comments", Kind::Text),
        ];
        assert(schema_view(s@) =~= Self::fields());
        s
    }

    fn to_values(&self) -> (v: Vec<Value>) {
        let v: Vec<Value> = vec![
            self.media_id.to_value(),
            self.deployment_id.to_value(),
            self.capture_method.to_value(),
            self.timestamp.to_value(),
            self.file_path.to_value(),
            self.file_public.to_value(),
            self.file_name.to_value(),
            self.file_mediatype.to_value(),
            self.exif_data.to_value(),
            self.favorite.to_value(),
            self.comments.to_value(),
        ];
        assert(values_view(v@) =~= self.values());
        v
    }

    fn from_values(values: &Vec<Value>) -> (r: Self) {
        let r = Medium {
            media_id: String::of_value(&values[0]),
            deployment_id: String::of_value(&values[1]),
            capture_method: Option::of_value(&values[2]),
            timestamp: DateTime::of_value(&values[3]),
            file_path: String::of_value(&values[4]),
            file_public: bool::of_value(&values[5]),
            file_name: Option::of_value(&values[6]),
            file_mediatype: String::of_value(&values[7]),
            exif_data: Option::of_value(&values[8]),
            favorite: Option::of_value(&values[9]),
            comments: Option::of_value(&values[10]),
        };
        assert(r.values() =~= values_view(values@));
        r
    }

    proof fn lemma_schema() {
        reveal_strlit("mediaID");
        reveal_strlit("deploymentID");
        reveal_strlit("captureMethod");
        reveal_strlit("timestamp");
        reveal_strlit("filePath");
        reveal_strlit("filePublic");
        reveal_strlit("fileName");
        reveal_strlit("fileMediatype");
        reveal_strlit("exifData");
        reveal_strlit("favorite");
        reveal_strlit("comments");
        assert("mediaID"@.len() == 7);
        assert("deploymentID"@.len() == 12);
        assert("captureMethod"@.len() == 13);
        assert("captureMethod"@[0] == 'c');
        assert("timestamp"@.len() == 9);
        assert("filePath"@.len() == 8);
        assert("filePath"@[0] == 'f');
        assert("filePath"@[1] == 'i');
        assert("filePath"@[4] == 'P');
        assert("filePublic"@.len() == 10);
        assert("fileName"@.len() == 8);
        assert("fileName"@[0] == 'f');
        assert("fileName"@[1] == 'i');
        assert("fileName"@[4] == 'N');
        assert("fileMediatype"@.len() == 13);
        assert("fileMediatype"@[0] == 'f');
        assert("exifData"@.len() == 8);
        assert("exifData"@[0] == 'e');
        assert("favorite"@.len() == 8);
        assert("favorite"@[0] == 'f');
        assert("favorite"@[1] == 'a');
        assert("comments"@.len() == 8);
        assert("comments"@[0] == 'c');
    }
}

impl ReadDataPackageCsv for Medium {}

} // verus!
