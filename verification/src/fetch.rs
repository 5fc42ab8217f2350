use vstd::prelude::*;

verus! {

/// Relies on uuid::Uuid::new_v4 and its Display form: a fresh random
/// version-4 UUID, printed in the hyphenated lowercase form, which is
/// always 36 characters long. The randomness is what makes concurrent
/// fetches land in distinct files; no two calls are related by contract.
#[verifier::external_body]
fn fresh_uuid_string() -> (r: String)
    ensures
        r@.len() == 36,
{
    format!("{}", uuid::Uuid::new_v4())
}

/// The name under which a fetched art image is stored until it is adopted:
/// a fixed prefix, a fresh random token so overlapping fetches cannot
/// collide, and a conventional image extension.
pub fn temp_art_file_name() -> (r: String)
    ensures
        r@.len() == 54,
        r@.subrange(0, 14) == "spotify_album_"@,
        r@.subrange(50, 54) == ".jpg"@,
{
    let token = fresh_uuid_string();
    let r = String::from_str("spotify_album_").concat(token.as_str()).concat(".jpg");
    proof {
        reveal_strlit("spotify_album_");
        reveal_strlit(".jpg");
        assert(r@.subrange(0, 14) =~= "spotify_album_"@);
        assert(r@.subrange(50, 54) =~= ".jpg"@);
    }
    r
}

} // verus!
