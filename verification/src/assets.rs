//! Players, textures, the asset table, and the sprites drawn from it.
//!
//! A texture is modeled by what the game knows of it: the file it is loaded
//! from and the pixel rectangle cropped out of that file. The pixel data
//! itself lives with the renderer. A sprite is a positioned view over one
//! texture; it keeps the player tag of the texture it borrows, so the
//! renderer can find the pixels again.

use vstd::prelude::*;

use crate::geometry::{IntRect, Vec2};

verus! {

/// Width in pixels of the rectangle cropped out of each paddle image.
pub const PADDLE_WIDTH: i32 = 20;

/// Height in pixels of the rectangle cropped out of each paddle image.
pub const PADDLE_HEIGHT: i32 = 50;

/// The tag that tells the two players — and their paddle colors — apart.
/// Exactly two values exist; every table keyed by it holds at most two rows.
#[derive(Clone, Copy, PartialEq, Eq, Structural, Debug)]
pub enum PlayerId {
    BluePaddle,
    GreenPaddle,
}

/// The position each player's tag takes in tables ordered by player.
pub open spec fn player_index(id: PlayerId) -> int {
    match id {
        PlayerId::BluePaddle => 0,
        PlayerId::GreenPaddle => 1,
    }
}

impl PlayerId {
    /// This player's position in tables ordered by player.
    pub fn index(self) -> (r: usize)
        ensures
            r == player_index(self),
    {
        match self {
            PlayerId::BluePaddle => 0,
            PlayerId::GreenPaddle => 1,
        }
    }

    /// The player at the given table position, if there is one.
    pub fn from_index(i: usize) -> (r: Option<PlayerId>)
        ensures
            i == 0 ==> r == Some(PlayerId::BluePaddle),
            i == 1 ==> r == Some(PlayerId::GreenPaddle),
            i >= 2 ==> r is None,
    {
        if i == 0 {
            Some(PlayerId::BluePaddle)
        } else if i == 1 {
            Some(PlayerId::GreenPaddle)
        } else {
            None
        }
    }
}

/// A texture, modeled by its source file and the pixel rectangle cropped out
/// of it.
pub struct Texture {
    pub path: String,
    pub area: IntRect,
}

/// A table of textures keyed by player, in insertion order. It replaces a
/// hash map; its keys stay unique and iteration follows insertion.
pub struct AssetMap {
    entries: Vec<(PlayerId, Texture)>,
}

/// Whether some row of `s` carries the key `id`.
pub open spec fn has_key(s: Seq<(PlayerId, Texture)>, id: PlayerId) -> bool {
    exists|i: int| 0 <= i < s.len() && #[trigger] s[i].0 == id
}

/// The row at which `s` carries the key `id`.
pub open spec fn key_index(s: Seq<(PlayerId, Texture)>, id: PlayerId) -> int {
    choose|i: int| 0 <= i < s.len() && #[trigger] s[i].0 == id
}

impl View for AssetMap {
    type V = Seq<(PlayerId, Texture)>;

    closed spec fn view(&self) -> Seq<(PlayerId, Texture)> {
        self.entries@
    }
}

impl AssetMap {
    /// No two rows share a key.
    pub open spec fn wf(self) -> bool {
        forall|i: int, j: int|
            0 <= i < j < self@.len() ==> #[trigger] self@[i].0 != #[trigger] self@[j].0
    }

    /// An empty table.
    pub fn new() -> (m: AssetMap)
        ensures
            m@ == Seq::<(PlayerId, Texture)>::empty(),
            m.wf(),
    {
        AssetMap { entries: Vec::new() }
    }

    /// How many textures the table holds.
    pub fn len(&self) -> (r: usize)
        ensures
            r == self@.len(),
    {
        self.entries.len()
    }

    /// The row at position `i`, in insertion order.
    pub fn entry_at(&self, i: usize) -> (r: &(PlayerId, Texture))
        requires
            i < self@.len(),
        ensures
            *r == self@[i as int],
    {
        &self.entries[i]
    }

    /// Map `id` to `texture`: replace the row that carries `id`, or append a
    /// new row if none does.
    pub fn insert(&mut self, id: PlayerId, texture: Texture)
        requires
            old(self).wf(),
        ensures
            final(self).wf(),
            !has_key(old(self)@, id) ==> final(self)@ == old(self)@.push((id, texture)),
            has_key(old(self)@, id) ==> final(self)@ == old(self)@.update(
                key_index(old(self)@, id),
                (id, texture),
            ),
    {
        let n = self.entries.len();
        let mut i: usize = 0;
        while i < n
            invariant
                self@ == old(self)@,
                old(self).wf(),
                n == self@.len(),
                i <= n,
                forall|k: int| 0 <= k < i ==> #[trigger] self@[k].0 != id,
            decreases n - i,
        {
            if self.entries[i].0 == id {
                proof {
                    assert(self@[i as int].0 == id);
                    assert(has_key(self@, id));
                    let w = key_index(self@, id);
                    assert(0 <= w < self@.len() && self@[w].0 == id);
                    assert(w == i as int);
                }
                self.entries.remove(i);
                self.entries.insert(i, (id, texture));
                proof {
                    assert(self@ =~= old(self)@.update(i as int, (id, texture)));
                    assert forall|p: int| 0 <= p < self@.len() implies #[trigger] self@[p].0
                        == old(self)@[p].0 by {};
                    assert forall|p: int, q: int|
                        0 <= p < q < self@.len() implies #[trigger] self@[p].0
                        != #[trigger] self@[q].0 by {
                        assert(old(self)@[p].0 != old(self)@[q].0);
                    };
                }
                return ;
            }
            i += 1;
        }
        proof {
            assert(!has_key(self@, id));
        }
        self.entries.push((id, texture));
        proof {
            assert forall|p: int, q: int|
                0 <= p < q < self@.len() implies #[trigger] self@[p].0 != #[trigger] self@[q].0 by {
                if q == self@.len() - 1 {
                    assert(self@[p].0 == old(self)@[p].0);
                } else {
                    assert(old(self)@[p].0 != old(self)@[q].0);
                }
            };
        }
    }
}

/// A table keyed by player never exceeds two rows: only two player tags
/// exist, and a well-formed table's keys are distinct.
pub proof fn lemma_asset_map_at_most_two(m: AssetMap)
    requires
        m.wf(),
    ensures
        m@.len() <= 2,
{
    if m@.len() > 2 {
        assert(m@[0].0 != m@[1].0);
        assert(m@[0].0 != m@[2].0);
        assert(m@[1].0 != m@[2].0);
    }
}

/// A positioned, drawable view over one texture. The sprite borrows the
/// pixel data of the texture whose player tag it carries.
#[derive(Clone, Copy, PartialEq, Eq, Structural, Debug)]
pub struct Sprite {
    /// The tag of the texture this sprite borrows its pixels from.
    pub texture: PlayerId,
    /// Top-left corner, in quarter pixels.
    pub position: Vec2,
}

impl Sprite {
    /// A sprite over the texture with tag `texture`, at the origin.
    pub fn new_with_texture(texture: PlayerId) -> (r: Sprite)
        ensures
            r.texture == texture,
            r.position == (Vec2 { x: 0, y: 0 }),
    {
        Sprite { texture: texture, position: Vec2 { x: 0, y: 0 } }
    }

    /// Put the sprite at `p`.
    pub fn set_position(&mut self, p: Vec2)
        ensures
            final(self).texture == old(self).texture,
            final(self).position == p,
    {
        self.position = p;
    }

    /// Shift the sprite by `delta`.
    pub fn move_by(&mut self, delta: Vec2)
        requires
            i32::MIN <= old(self).position.x + delta.x <= i32::MAX,
            i32::MIN <= old(self).position.y + delta.y <= i32::MAX,
        ensures
            final(self).texture == old(self).texture,
            final(self).position.x == old(self).position.x + delta.x,
            final(self).position.y == old(self).position.y + delta.y,
    {
        self.position.x = self.position.x + delta.x;
        self.position.y = self.position.y + delta.y;
    }
}

/// Load the two paddle textures, each keyed by its player: first the blue
/// paddle, then the green one, both cropped to the paddle rectangle.
///
/// Reading and decoding the image files belongs to the renderer; the table
/// built here records, for each player, which file and which crop it must
/// load.
pub fn load_assets() -> (m: AssetMap)
    ensures
        m.wf(),
        m@.len() == 2,
        m@[0].0 == PlayerId::BluePaddle,
        m@[0].1.path@ == "./assets/blue-paddle.png"@,
        m@[1].0 == PlayerId::GreenPaddle,
        m@[1].1.path@ == "./assets/green-paddle.png"@,
        m@[0].1.area == (IntRect { left: 0, top: 0, width: PADDLE_WIDTH, height: PADDLE_HEIGHT }),
        m@[1].1.area == (IntRect { left: 0, top: 0, width: PADDLE_WIDTH, height: PADDLE_HEIGHT }),
{
    let dir = "./assets/";
    let blue_paddle_path = String::from_str(dir).concat("blue-paddle.png");
    let green_paddle_path = String::from_str(dir).concat("green-paddle.png");
    proof {
        reveal_strlit("./assets/");
        reveal_strlit("blue-paddle.png");
        reveal_strlit("green-paddle.png");
        reveal_strlit("./assets/blue-paddle.png");
        reveal_strlit("./assets/green-paddle.png");
        assert(blue_paddle_path@ =~= "./assets/blue-paddle.png"@);
        assert(green_paddle_path@ =~= "./assets/green-paddle.png"@);
    }

    let texture_rect = IntRect { left: 0, top: 0, width: PADDLE_WIDTH, height: PADDLE_HEIGHT };
    let blue_paddle_texture = Texture { path: blue_paddle_path, area: texture_rect };
    let green_paddle_texture = Texture { path: green_paddle_path, area: texture_rect };

    let mut hs = AssetMap::new();
    hs.insert(PlayerId::BluePaddle, blue_paddle_texture);
    hs.insert(PlayerId::GreenPaddle, green_paddle_texture);
    hs
}

/// Build one sprite per texture, keyed like the asset table and in its
/// order: row `i` of the result carries the same player tag as row `i` of
/// `assets`, and its sprite borrows that player's texture and still sits at
/// the origin.
pub fn create_sprites(assets: &AssetMap) -> (r: Vec<(PlayerId, Sprite)>)
    ensures
        r@.len() == assets@.len(),
        forall|i: int|
            0 <= i < r@.len() ==> {
                &&& (#[trigger] r@[i]).0 == assets@[i].0
                &&& r@[i].1.texture == assets@[i].0
                &&& r@[i].1.position == (Vec2 { x: 0, y: 0 })
            },
{
    let n = assets.len();
    let mut sprite_map: Vec<(PlayerId, Sprite)> = Vec::new();
    let mut i: usize = 0;
    while i < n
        invariant
            n == assets@.len(),
            i <= n,
            sprite_map@.len() == i,
            forall|k: int|
                0 <= k < i ==> {
                    &&& (#[trigger] sprite_map@[k]).0 == assets@[k].0
                    &&& sprite_map@[k].1.texture == assets@[k].0
                    &&& sprite_map@[k].1.position == (Vec2 { x: 0, y: 0 })
                },
        decreases n - i,
    {
        let entry = assets.entry_at(i);
        let asset_id = entry.0;
        let sprite = Sprite::new_with_texture(asset_id);
        sprite_map.push((asset_id, sprite));
        i += 1;
    }
    sprite_map
}

} // verus!
