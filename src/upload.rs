//! What an upload needs to know of a media file, and how gaps in it are
//! filled from the file's own metadata.
use vstd::prelude::*;
use crate::creation_date::CreationDate;

verus! {

/// The arguments of an upload.
pub struct UploadArgs {
    pub media_path: String,
    /// Whether to upload for real rather than only show what would be sent.
    pub no_dry_run: bool,
    pub title: Option<String>,
    pub artist: Option<String>,
    pub genre: Option<String>,
    pub created_at: Option<CreationDate>,
    pub license: String,
}

/// The metadata found in a media file.
pub struct MediaPropertyCollector {
    pub created_at: Option<CreationDate>,
    pub title: Option<String>,
    pub artist: Option<String>,
    pub genre: Option<String>,
}

impl MediaPropertyCollector {
    pub fn new() -> (r: Self)
        ensures
            r.created_at is None && r.title is None && r.artist is None && r.genre is None,
    {
        MediaPropertyCollector { created_at: None, title: None, artist: None, genre: None }
    }

    pub fn on_created_at(&mut self, created_at: CreationDate)
        ensures
            final(self).created_at == Some(created_at),
            final(self).title == old(self).title,
            final(self).artist == old(self).artist,
            final(self).genre == old(self).genre,
    {
        self.created_at = Some(created_at);
    }

    pub fn on_title(&mut self, title: String)
        ensures
            final(self).title == Some(title),
            final(self).created_at == old(self).created_at,
            final(self).artist == old(self).artist,
            final(self).genre == old(self).genre,
    {
        self.title = Some(title);
    }

    pub fn on_artist(&mut self, artist: String)
        ensures
            final(self).artist == Some(artist),
            final(self).created_at == old(self).created_at,
            final(self).title == old(self).title,
            final(self).genre == old(self).genre,
    {
        self.artist = Some(artist);
    }

    pub fn on_genre(&mut self, genre: String)
        ensures
            final(self).genre == Some(genre),
            final(self).created_at == old(self).created_at,
            final(self).title == old(self).title,
            final(self).artist == old(self).artist,
    {
        self.genre = Some(genre);
    }
}

/// `a` where it is there, else `b`.
pub open spec fn or_else<T>(a: Option<T>, b: Option<T>) -> Option<T> {
    if a is Some {
        a
    } else {
        b
    }
}

impl UploadArgs {
    /// Whether a property is missing, so that the file's metadata is needed.
    pub fn needs_autofill(&self) -> (r: bool)
        ensures
            r == (self.title is None || self.artist is None || self.genre is None
                || self.created_at is None),
    {
        self.title.is_none() || self.artist.is_none() || self.genre.is_none()
            || self.created_at.is_none()
    }

    /// Fills each missing property from `found`; given ones stay.
    pub fn autofill(&mut self, found: MediaPropertyCollector)
        ensures
            final(self).title == or_else(old(self).title, found.title),
            final(self).artist == or_else(old(self).artist, found.artist),
            final(self).genre == or_else(old(self).genre, found.genre),
            final(self).created_at == or_else(old(self).created_at, found.created_at),
            final(self).media_path == old(self).media_path,
            final(self).no_dry_run == old(self).no_dry_run,
            final(self).license == old(self).license,
    {
        let MediaPropertyCollector { created_at, title, artist, genre } = found;
        if self.title.is_none() {
            self.title = title;
        }
        if self.artist.is_none() {
            self.artist = artist;
        }
        if self.genre.is_none() {
            self.genre = genre;
        }
        if self.created_at.is_none() {
            self.created_at = created_at;
        }
    }
}

} // verus!
