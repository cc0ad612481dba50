//! What the views are about: clipboard items, their tags and their files.

use vstd::prelude::*;

verus! {

/// The kind of content that an item holds.
#[derive(Clone, Copy, Debug, PartialEq, Eq, Structural)]
pub enum ContentType {
    PlainText,
    RichText,
    Image,
    File,
}

/// A tag that items can carry.
#[derive(Debug, Clone, PartialEq, Eq)]
pub struct TagInfo {
    pub id: i64,
    pub uid: String,
    pub name: String,
    /// A hex colour such as `#EF4444`.
    pub color: String,
}

impl TagInfo {
    /// A copy of this tag.
    pub fn duplicate(&self) -> (r: Self)
        ensures
            r == *self,
    {
        TagInfo {
            id: self.id,
            uid: self.uid.clone(),
            name: self.name.clone(),
            color: self.color.clone(),
        }
    }
}

/// A copy of a list of tags.
pub fn copy_tags(tags: &[TagInfo]) -> (r: Vec<TagInfo>)
    ensures
        r@ == tags@,
{
    let mut r: Vec<TagInfo> = Vec::new();
    let mut i: usize = 0;
    while i < tags.len()
        invariant
            0 <= i <= tags.len(),
            r@ == tags@.take(i as int),
        decreases tags.len() - i,
    {
        r.push(tags[i].duplicate());
        i += 1;
        assert(tags@.take(i as int) =~= tags@.take(i - 1).push(tags@[i - 1]));
    }
    assert(tags@.take(i as int) =~= tags@);
    r
}

/// One file of a file item.
#[derive(Debug, Clone, PartialEq, Eq)]
pub struct FileEntry {
    pub path: String,
}

/// What a file item is about, decoded.
#[derive(Debug, Clone, PartialEq, Eq)]
pub struct FileData {
    pub files: Vec<FileEntry>,
    /// Name of the content on the transfer station; empty for a local item.
    pub remote_hash: String,
    /// Whether the item is an entry of the transfer station.
    pub transfer: bool,
}

/// The contents of a `FileData`.
#[verifier::ext_equal]
pub ghost struct FileModel {
    pub files: Seq<FileEntry>,
    pub remote_hash: String,
    pub transfer: bool,
}

impl View for FileData {
    type V = FileModel;

    open spec fn view(&self) -> FileModel {
        FileModel { files: self.files@, remote_hash: self.remote_hash, transfer: self.transfer }
    }
}

impl FileData {
    /// No file at all.
    pub fn empty() -> (r: Self)
        ensures
            r.files@ == Seq::<FileEntry>::empty(),
            r.remote_hash@ == Seq::<char>::empty(),
            !r.transfer,
    {
        FileData { files: Vec::new(), remote_hash: String::new(), transfer: false }
    }

    /// Whether the item is an entry of the transfer station.
    pub fn is_transfer(&self) -> (r: bool)
        ensures
            r == self.transfer,
    {
        self.transfer
    }

    /// A copy of this file data.
    pub fn duplicate(&self) -> (r: Self)
        ensures
            r@ == self@,
    {
        let mut files: Vec<FileEntry> = Vec::new();
        let mut i: usize = 0;
        while i < self.files.len()
            invariant
                0 <= i <= self.files.len(),
                files@ == self.files@.take(i as int),
            decreases self.files.len() - i,
        {
            files.push(FileEntry { path: self.files[i].path.clone() });
            i += 1;
            assert(self.files@.take(i as int) =~= self.files@.take(i - 1).push(self.files@[i - 1]));
        }
        assert(self.files@.take(i as int) =~= self.files@);
        FileData { files, remote_hash: self.remote_hash.clone(), transfer: self.transfer }
    }
}

/// An entry of the clipboard history.
#[derive(Debug, Clone, PartialEq, Eq)]
pub struct ClipboardItem {
    /// Positive for a stored item, negative for an entry of the transfer
    /// station and for a placeholder.
    pub id: i64,
    pub content_type: ContentType,
    pub full_text: String,
    pub content_hash: u64,
    /// When the item was first copied; a larger value is later.
    pub created_at: i64,
    /// When the item was last used; a larger value is later.
    pub updated_at: i64,
    pub image_path: String,
    pub image_width: u32,
    pub image_height: u32,
    pub rich_data: String,
    pub file_data: FileData,
    pub is_favorite: bool,
    pub note: String,
    pub source_app_name: String,
    pub source_app_icon: String,
    pub size: u64,
    pub tags: Vec<TagInfo>,
    pub meta_type: String,
    pub custom_hotkey: String,
    pub custom_hotkey_format: String,
    pub existence_observed_at: String,
}

/// The contents of a `ClipboardItem`.
#[verifier::ext_equal]
pub ghost struct ItemModel {
    pub id: i64,
    pub content_type: ContentType,
    pub full_text: String,
    pub content_hash: u64,
    pub created_at: i64,
    pub updated_at: i64,
    pub image_path: String,
    pub image_width: u32,
    pub image_height: u32,
    pub rich_data: String,
    pub file_data: FileModel,
    pub is_favorite: bool,
    pub note: String,
    pub source_app_name: String,
    pub source_app_icon: String,
    pub size: u64,
    pub tags: Seq<TagInfo>,
    pub meta_type: String,
    pub custom_hotkey: String,
    pub custom_hotkey_format: String,
    pub existence_observed_at: String,
}

impl View for ClipboardItem {
    type V = ItemModel;

    open spec fn view(&self) -> ItemModel {
        ItemModel {
            id: self.id,
            content_type: self.content_type,
            full_text: self.full_text,
            content_hash: self.content_hash,
            created_at: self.created_at,
            updated_at: self.updated_at,
            image_path: self.image_path,
            image_width: self.image_width,
            image_height: self.image_height,
            rich_data: self.rich_data,
            file_data: self.file_data@,
            is_favorite: self.is_favorite,
            note: self.note,
            source_app_name: self.source_app_name,
            source_app_icon: self.source_app_icon,
            size: self.size,
            tags: self.tags@,
            meta_type: self.meta_type,
            custom_hotkey: self.custom_hotkey,
            custom_hotkey_format: self.custom_hotkey_format,
            existence_observed_at: self.existence_observed_at,
        }
    }
}

impl ClipboardItem {
    /// A copy of this item.
    pub fn duplicate(&self) -> (r: Self)
        ensures
            r@ == self@,
    {
        ClipboardItem {
            id: self.id,
            content_type: self.content_type,
            full_text: self.full_text.clone(),
            content_hash: self.content_hash,
            created_at: self.created_at,
            updated_at: self.updated_at,
            image_path: self.image_path.clone(),
            image_width: self.image_width,
            image_height: self.image_height,
            rich_data: self.rich_data.clone(),
            file_data: self.file_data.duplicate(),
            is_favorite: self.is_favorite,
            note: self.note.clone(),
            source_app_name: self.source_app_name.clone(),
            source_app_icon: self.source_app_icon.clone(),
            size: self.size,
            tags: copy_tags(self.tags.as_slice()),
            meta_type: self.meta_type.clone(),
            custom_hotkey: self.custom_hotkey.clone(),
            custom_hotkey_format: self.custom_hotkey_format.clone(),
            existence_observed_at: self.existence_observed_at.clone(),
        }
    }
}

/// An image that was copied and is still being stored.
#[derive(Debug, Clone, PartialEq, Eq)]
pub struct PendingImageView {
    pub raw_hash: u64,
    pub width: u32,
    pub height: u32,
    pub source_name: String,
    pub source_icon: String,
    /// When the image was copied.
    pub copied_at: i64,
}

impl PendingImageView {
    /// A copy of this view.
    pub fn duplicate(&self) -> (r: Self)
        ensures
            r == *self,
    {
        PendingImageView {
            raw_hash: self.raw_hash,
            width: self.width,
            height: self.height,
            source_name: self.source_name.clone(),
            source_icon: self.source_icon.clone(),
            copied_at: self.copied_at,
        }
    }
}

/// A copy of a list of pending images.
pub fn copy_pending(pending: &[PendingImageView]) -> (r: Vec<PendingImageView>)
    ensures
        r@ == pending@,
{
    let mut r: Vec<PendingImageView> = Vec::new();
    let mut i: usize = 0;
    while i < pending.len()
        invariant
            0 <= i <= pending.len(),
            r@ == pending@.take(i as int),
        decreases pending.len() - i,
    {
        r.push(pending[i].duplicate());
        i += 1;
        assert(pending@.take(i as int) =~= pending@.take(i - 1).push(pending@[i - 1]));
    }
    assert(pending@.take(i as int) =~= pending@);
    r
}

/// How many of the items that a tag picker is about carry a tag.
#[derive(Clone, Copy, Debug, PartialEq, Eq, Structural)]
pub enum TagState {
    Absent,
    Partial,
    All,
}

} // verus!
