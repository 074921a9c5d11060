//! Storage paths of downloaded media and of profile photos.

use vstd::prelude::*;
use vstd::string::*;

verus! {

/// The character that stands for the digit `d`, `0 <= d < 10`.
pub open spec fn digit_char(d: nat) -> char {
    if d == 0 {
        '0'
    } else if d == 1 {
        '1'
    } else if d == 2 {
        '2'
    } else if d == 3 {
        '3'
    } else if d == 4 {
        '4'
    } else if d == 5 {
        '5'
    } else if d == 6 {
        '6'
    } else if d == 7 {
        '7'
    } else if d == 8 {
        '8'
    } else {
        '9'
    }
}

/// The decimal digits of `n`, most significant first, without leading zeros.
pub open spec fn decimal_digits(n: nat) -> Seq<char>
    decreases n,
{
    if n < 10 {
        seq![digit_char(n)]
    } else {
        decimal_digits(n / 10).push(digit_char(n % 10))
    }
}

/// The decimal text of `i`: a minus sign for a negative number, then the
/// digits of its magnitude.
pub open spec fn decimal(i: int) -> Seq<char> {
    if i < 0 {
        seq!['-'] + decimal_digits((-i) as nat)
    } else {
        decimal_digits(i as nat)
    }
}

/// The directory under which every download is stored.
pub open spec fn medias_dir() -> Seq<char> {
    "/data/storage/el2/base/downloads/"@
}

/// The directory that holds the media of one chat.
pub open spec fn download_dir(chat_id: int) -> Seq<char> {
    medias_dir() + seq!['/'] + decimal(chat_id) + seq!['/']
}

/// The file that holds the media of one message.
pub open spec fn media_path(chat_id: int, message_id: int) -> Seq<char> {
    download_dir(chat_id) + decimal(message_id) + ".jpg"@
}

/// The directory that holds the profile photos of one chat.
pub open spec fn profile_photo_dir(chat_id: int) -> Seq<char> {
    download_dir(chat_id) + "profile_photos/"@
}

/// The `index`-th profile photo of a chat; the first one is number 1.
pub open spec fn profile_photo_file(chat_id: int, index: int) -> Seq<char> {
    profile_photo_dir(chat_id) + decimal(index) + ".jpg"@
}

fn digit_str(d: u64) -> (r: &'static str)
    requires
        d < 10,
    ensures
        r@ == seq![digit_char(d as nat)],
{
    proof {
        reveal_strlit("0");
        reveal_strlit("1");
        reveal_strlit("2");
        reveal_strlit("3");
        reveal_strlit("4");
        reveal_strlit("5");
        reveal_strlit("6");
        reveal_strlit("7");
        reveal_strlit("8");
        reveal_strlit("9");
    }
    let r = if d == 0 {
        "0"
    } else if d == 1 {
        "1"
    } else if d == 2 {
        "2"
    } else if d == 3 {
        "3"
    } else if d == 4 {
        "4"
    } else if d == 5 {
        "5"
    } else if d == 6 {
        "6"
    } else if d == 7 {
        "7"
    } else if d == 8 {
        "8"
    } else {
        "9"
    };
    assert(r@ =~= seq![digit_char(d as nat)]);
    r
}

/// Appends the decimal digits of `n` to `out`.
pub fn push_digits(out: &mut String, n: u64)
    ensures
        final(out)@ == old(out)@ + decimal_digits(n as nat),
    decreases n,
{
    if n >= 10 {
        push_digits(out, n / 10);
    }
    let ghost before = out@;
    out.append(digit_str(n % 10));
    proof {
        if n >= 10 {
            assert(out@ =~= old(out)@ + decimal_digits((n / 10) as nat).push(
                digit_char((n % 10) as nat),
            ));
        } else {
            assert(out@ =~= old(out)@ + decimal_digits(n as nat));
        }
    }
}

/// Appends the decimal text of `i` to `out`.
pub fn push_decimal(out: &mut String, i: i64)
    ensures
        final(out)@ == old(out)@ + decimal(i as int),
{
    if i < 0 {
        proof {
            reveal_strlit("-");
        }
        out.append("-");
        let magnitude: u64 = ((-(i + 1)) as u64) + 1;
        assert(magnitude as int == -(i as int));
        push_digits(out, magnitude);
        assert(out@ =~= old(out)@ + (seq!['-'] + decimal_digits((-(i as int)) as nat)));
    } else {
        push_digits(out, i as u64);
    }
}

/// The directory that holds the media of the chat `chat_id`.
pub fn get_download_dir(chat_id: i64) -> (dir: String)
    ensures
        dir@ == download_dir(chat_id as int),
{
    proof {
        reveal_strlit("/");
    }
    let mut dir = String::from_str("/data/storage/el2/base/downloads/");
    dir.append("/");
    push_decimal(&mut dir, chat_id);
    dir.append("/");
    assert(dir@ =~= download_dir(chat_id as int));
    dir
}

/// The file to which the media of message `message_id` of chat `chat_id` is
/// written.
pub fn get_media_path(chat_id: i64, message_id: i32) -> (path: String)
    ensures
        path@ == media_path(chat_id as int, message_id as int),
{
    let mut path = get_download_dir(chat_id);
    push_decimal(&mut path, message_id as i64);
    path.append(".jpg");
    path
}

/// Where the profile photos of one chat are stored, and which comes next.
#[derive(Debug)]
pub struct ProfilePhotoPath {
    pub dir: String,
    pub current: Option<String>,
    pub next: String,
    pub count: i32,
}

impl ProfilePhotoPath {
    /// The paths that belong to a chat whose directory holds `count` photos:
    /// the newest one is numbered `count`, the next one `count + 1`.
    pub open spec fn describes(&self, chat_id: int, count: int) -> bool {
        &&& self.dir@ == profile_photo_dir(chat_id)
        &&& self.count == count
        &&& self.next@ == profile_photo_file(chat_id, count + 1)
        &&& match self.current {
            Some(path) => count != 0 && path@ == profile_photo_file(chat_id, count),
            None => count == 0,
        }
    }

    /// The photos are numbered without gaps from 1, so the next file is the
    /// one after the current count, and a current file exists exactly when
    /// the count is not zero.
    pub open spec fn well_formed(&self) -> bool {
        &&& self.count >= 0
        &&& self.current is Some <==> self.count != 0
        &&& exists|chat_id: int| #[trigger] self.describes(chat_id, self.count as int)
    }
}

/// The directory that holds the profile photos of the chat `chat_id`.
pub fn get_profile_photo_dir(chat_id: i64) -> (dir: String)
    ensures
        dir@ == profile_photo_dir(chat_id as int),
{
    let mut dir = get_download_dir(chat_id);
    dir.append("profile_photos/");
    dir
}

/// The profile photo paths of chat `chat_id`, whose directory holds
/// `n_profile_photos` files.
pub fn get_profile_photo_path_and_count(chat_id: i64, n_profile_photos: usize) -> (path:
    ProfilePhotoPath)
    requires
        n_profile_photos < i32::MAX,
    ensures
        path.describes(chat_id as int, n_profile_photos as int),
        path.well_formed(),
{
    let dir = get_profile_photo_dir(chat_id);
    let current = if n_profile_photos == 0 {
        None
    } else {
        let mut file = dir.clone();
        push_digits(&mut file, n_profile_photos as u64);
        file.append(".jpg");
        Some(file)
    };
    let mut next = dir.clone();
    push_digits(&mut next, (n_profile_photos + 1) as u64);
    next.append(".jpg");
    let path = ProfilePhotoPath { dir, current, next, count: n_profile_photos as i32 };
    assert(path.describes(chat_id as int, n_profile_photos as int));
    path
}

} // verus!
