//! Monster records, their construction-time validation, and the ordered
//! database with its first-match lookups and fixed reference table.

use vstd::prelude::*;

verus! {

/// A target's defensive stats. The cut rate is a fraction in [0, 1), held in
/// per-mille (a value of 480 stands for 0.480).
#[derive(Debug, Clone)]
pub struct Monster {
    pub id: String,
    pub name: String,
    pub level: u32,
    pub hp: u32,
    pub defense: u32,
    pub fixed_defense: u32,
    pub fixed_reduction: u32,
    pub cut_rate_permille: u32,
    pub element_resistance: u32,
    pub image_url: Option<String>,
}

/// Why a monster record was rejected at construction.
#[derive(Debug, Clone, Copy, PartialEq, Eq, Structural)]
pub enum MonsterError {
    /// hp was 0: every monster has positive hp.
    InvalidHp,
    /// The cut rate was not a fraction in [0, 1): at least 1000 per-mille.
    InvalidCutRate,
}

impl Monster {
    /// A monster's stats are well formed: positive hp and a cut rate below 1.
    pub open spec fn valid(self) -> bool {
        self.hp >= 1 && self.cut_rate_permille < 1000
    }

    /// Builds a monster with no image reference, rejecting malformed stats at
    /// construction rather than deep inside the damage formula.
    pub fn new(
        id: &str,
        name: &str,
        level: u32,
        hp: u32,
        defense: u32,
        fixed_defense: u32,
        fixed_reduction: u32,
        cut_rate_permille: u32,
        element_resistance: u32,
    ) -> (r: Result<Monster, MonsterError>)
        ensures
            hp == 0 <==> r == Result::<Monster, MonsterError>::Err(MonsterError::InvalidHp),
            hp >= 1 && cut_rate_permille >= 1000 <==> r == Result::<
                Monster,
                MonsterError,
            >::Err(MonsterError::InvalidCutRate),
            r matches Ok(m) ==> {
                &&& m.id@ == id@
                &&& m.name@ == name@
                &&& m.level == level
                &&& m.hp == hp
                &&& m.defense == defense
                &&& m.fixed_defense == fixed_defense
                &&& m.fixed_reduction == fixed_reduction
                &&& m.cut_rate_permille == cut_rate_permille
                &&& m.element_resistance == element_resistance
                &&& m.image_url is None
                &&& m.valid()
            },
            hp >= 1 && cut_rate_permille < 1000 ==> r is Ok,
    {
        if hp == 0 {
            Err(MonsterError::InvalidHp)
        } else if cut_rate_permille >= 1000 {
            Err(MonsterError::InvalidCutRate)
        } else {
            Ok(
                Monster {
                    id: id.to_owned(),
                    name: name.to_owned(),
                    level,
                    hp,
                    defense,
                    fixed_defense,
                    fixed_reduction,
                    cut_rate_permille,
                    element_resistance,
                    image_url: None,
                },
            )
        }
    }

    /// The same monster with an image reference attached.
    pub fn with_image(self, image_url: &str) -> (r: Monster)
        ensures
            r.id == self.id,
            r.name == self.name,
            r.level == self.level,
            r.hp == self.hp,
            r.defense == self.defense,
            r.fixed_defense == self.fixed_defense,
            r.fixed_reduction == self.fixed_reduction,
            r.cut_rate_permille == self.cut_rate_permille,
            r.element_resistance == self.element_resistance,
            r.image_url matches Some(u) && u@ == image_url@,
            self.valid() ==> r.valid(),
    {
        Monster { image_url: Some(image_url.to_owned()), ..self }
    }
}

/// The first monster of the sequence whose id reads as `id`, if any.
pub open spec fn spec_find_by_id(s: Seq<Monster>, id: Seq<char>) -> Option<Monster>
    decreases s.len(),
{
    if s.len() == 0 {
        None
    } else if s[0].id@ == id {
        Some(s[0])
    } else {
        spec_find_by_id(s.skip(1), id)
    }
}

/// The first monster of the sequence whose display name reads as `name`, if any.
pub open spec fn spec_find_by_name(s: Seq<Monster>, name: Seq<char>) -> Option<Monster>
    decreases s.len(),
{
    if s.len() == 0 {
        None
    } else if s[0].name@ == name {
        Some(s[0])
    } else {
        spec_find_by_name(s.skip(1), name)
    }
}

/// Stepping the id search past a non-matching head leaves the result as it was.
proof fn lemma_find_by_id_step(s: Seq<Monster>, id: Seq<char>, i: int)
    requires
        0 <= i < s.len(),
        s[i].id@ != id,
    ensures
        spec_find_by_id(s.skip(i), id) == spec_find_by_id(s.skip(i + 1), id),
{
    assert(s.skip(i).len() > 0);
    assert(s.skip(i)[0] == s[i]);
    assert(s.skip(i).skip(1) =~= s.skip(i + 1));
}

/// Stepping the name search past a non-matching head leaves the result as it was.
proof fn lemma_find_by_name_step(s: Seq<Monster>, name: Seq<char>, i: int)
    requires
        0 <= i < s.len(),
        s[i].name@ != name,
    ensures
        spec_find_by_name(s.skip(i), name) == spec_find_by_name(s.skip(i + 1), name),
{
    assert(s.skip(i).len() > 0);
    assert(s.skip(i)[0] == s[i]);
    assert(s.skip(i).skip(1) =~= s.skip(i + 1));
}

/// An ordered collection of monsters. Duplicate ids are not prevented; a
/// later entry with a duplicate id is never reachable by id lookup, because
/// both lookups return the first match.
#[derive(Debug, Clone)]
pub struct MonsterDatabase {
    pub monsters: Vec<Monster>,
}

impl MonsterDatabase {
    /// An empty database.
    pub fn new() -> (r: MonsterDatabase)
        ensures
            r.monsters@ =~= Seq::<Monster>::empty(),
    {
        MonsterDatabase { monsters: Vec::new() }
    }

    /// Appends a monster; no duplicate-id check is made.
    pub fn add_monster(&mut self, monster: Monster)
        ensures
            final (self).monsters@ == old(self).monsters@.push(monster),
    {
        self.monsters.push(monster);
    }

    /// Linear scan returning the first monster whose id equals `id`, or
    /// nothing when no entry matches.
    pub fn find_by_id(&self, id: &str) -> (r: Option<&Monster>)
        ensures
            match r {
                Some(m) => spec_find_by_id(self.monsters@, id@) == Some(*m),
                None => spec_find_by_id(self.monsters@, id@) is None,
            },
    {
        let wanted: String = id.to_owned();
        let n = self.monsters.len();
        let mut i: usize = 0;
        assert(self.monsters@.skip(0) =~= self.monsters@);
        while i < n
            invariant
                n == self.monsters@.len(),
                0 <= i <= n,
                spec_find_by_id(self.monsters@, id@) == spec_find_by_id(
                    self.monsters@.skip(i as int),
                    id@,
                ),
                wanted@ == id@,
            decreases n - i,
        {
            if self.monsters[i].id == wanted {
                assert(self.monsters@.skip(i as int)[0] == self.monsters@[i as int]);
                return Some(&self.monsters[i]);
            }
            proof {
                lemma_find_by_id_step(self.monsters@, id@, i as int);
            }
            i += 1;
        }
        assert(self.monsters@.skip(n as int) =~= Seq::<Monster>::empty());
        None
    }

    /// Linear scan returning the first monster whose display name equals
    /// `name`, or nothing when no entry matches.
    pub fn find_by_name(&self, name: &str) -> (r: Option<&Monster>)
        ensures
            match r {
                Some(m) => spec_find_by_name(self.monsters@, name@) == Some(*m),
                None => spec_find_by_name(self.monsters@, name@) is None,
            },
    {
        let wanted: String = name.to_owned();
        let n = self.monsters.len();
        let mut i: usize = 0;
        assert(self.monsters@.skip(0) =~= self.monsters@);
        while i < n
            invariant
                n == self.monsters@.len(),
                0 <= i <= n,
                spec_find_by_name(self.monsters@, name@) == spec_find_by_name(
                    self.monsters@.skip(i as int),
                    name@,
                ),
                wanted@ == name@,
            decreases n - i,
        {
            if self.monsters[i].name == wanted {
                assert(self.monsters@.skip(i as int)[0] == self.monsters@[i as int]);
                return Some(&self.monsters[i]);
            }
            proof {
                lemma_find_by_name_step(self.monsters@, name@, i as int);
            }
            i += 1;
        }
        assert(self.monsters@.skip(n as int) =~= Seq::<Monster>::empty());
        None
    }
}

/// One row of the reference table: the monster carries exactly the given
/// stats, the given image reference, and passes validation.
pub open spec fn spec_table_entry(
    m: Monster,
    id: Seq<char>,
    name: Seq<char>,
    level: int,
    hp: int,
    defense: int,
    fixed_defense: int,
    fixed_reduction: int,
    cut_rate_permille: int,
    element_resistance: int,
    image_url: Seq<char>,
) -> bool {
    &&& m.id@ == id
    &&& m.name@ == name
    &&& m.level == level
    &&& m.hp == hp
    &&& m.defense == defense
    &&& m.fixed_defense == fixed_defense
    &&& m.fixed_reduction == fixed_reduction
    &&& m.cut_rate_permille == cut_rate_permille
    &&& m.element_resistance == element_resistance
    &&& (m.image_url matches Some(u) && u@ == image_url)
    &&& m.valid()
}

/// The fixed reference table of monsters, in its seeding order.
pub fn create_default_monsters() -> (r: MonsterDatabase)
    ensures
        r.monsters@.len() == 9,
        spec_table_entry(
            r.monsters@[0],
            "appleboss"@,
            "りんごボス"@,
            30,
            1000,
            1500,
            7200,
            0,
            480,
            120,
            "https://example.com/lizpos.png"@,
        ),
        spec_table_entry(
            r.monsters@[1],
            "abysshell"@,
            "アビスヘル"@,
            35,
            1200,
            1500,
            8100,
            0,
            750,
            120,
            "https://example.com/abysshell.png"@,
        ),
        spec_table_entry(
            r.monsters@[2],
            "abyssamas"@,
            "アビスコアマス"@,
            35,
            1200,
            1500,
            8700,
            0,
            750,
            120,
            "https://example.com/abyssamas.png"@,
        ),
        spec_table_entry(
            r.monsters@[3],
            "eclipse1"@,
            "エクリプス（ロカゴス/エートス/チェリア)"@,
            40,
            1500,
            1500,
            39720,
            9285,
            510,
            125,
            "https://example.com/eclipsexi.png"@,
        ),
        spec_table_entry(
            r.monsters@[4],
            "eclipse2"@,
            "エクリプス（ライコス/マティア/ティロロス）"@,
            40,
            1500,
            1500,
            41220,
            9285,
            510,
            125,
            "https://example.com/eclipsex3.png"@,
        ),
        spec_table_entry(
            r.monsters@[5],
            "eclipse3"@,
            "エクリプス（アフェティリア）"@,
            40,
            1500,
            1500,
            41220,
            9285,
            510,
            125,
            "https://example.com/eclipsex3.png"@,
        ),
        spec_table_entry(
            r.monsters@[6],
            "siokanboss"@,
            "シオカンボス"@,
            40,
            1500,
            1500,
            33720,
            9285,
            510,
            125,
            "https://example.com/diaocanpos.png"@,
        ),
        spec_table_entry(
            r.monsters@[7],
            "odein"@,
            "オーディン"@,
            30,
            1000,
            1500,
            51720,
            9285,
            510,
            120,
            "https://example.com/oasis.png"@,
        ),
        spec_table_entry(
            r.monsters@[8],
            "kimaira"@,
            "キマイラ"@,
            30,
            1000,
            900,
            2985,
            0,
            993,
            120,
            "https://example.com/kimaira.png"@,
        ),
{
    let mut db = MonsterDatabase::new();
    db.add_monster(
        Monster::new("appleboss", "りんごボス", 30, 1000, 1500, 7200, 0, 480, 120).unwrap()
            .with_image("https://example.com/lizpos.png"),
    );
    db.add_monster(
        Monster::new("abysshell", "アビスヘル", 35, 1200, 1500, 8100, 0, 750, 120).unwrap()
            .with_image("https://example.com/abysshell.png"),
    );
    db.add_monster(
        Monster::new("abyssamas", "アビスコアマス", 35, 1200, 1500, 8700, 0, 750, 120).unwrap()
            .with_image("https://example.com/abyssamas.png"),
    );
    db.add_monster(
        Monster::new(
            "eclipse1",
            "エクリプス（ロカゴス/エートス/チェリア)",
            40,
            1500,
            1500,
            39720,
            9285,
            510,
            125,
        ).unwrap().with_image("https://example.com/eclipsexi.png"),
    );
    db.add_monster(
        Monster::new(
            "eclipse2",
            "エクリプス（ライコス/マティア/ティロロス）",
            40,
            1500,
            1500,
            41220,
            9285,
            510,
            125,
        ).unwrap().with_image("https://example.com/eclipsex3.png"),
    );
    db.add_monster(
        Monster::new(
            "eclipse3",
            "エクリプス（アフェティリア）",
            40,
            1500,
            1500,
            41220,
            9285,
            510,
            125,
        ).unwrap().with_image("https://example.com/eclipsex3.png"),
    );
    db.add_monster(
        Monster::new("siokanboss", "シオカンボス", 40, 1500, 1500, 33720, 9285, 510, 125).unwrap()
            .with_image("https://example.com/diaocanpos.png"),
    );
    db.add_monster(
        Monster::new("odein", "オーディン", 30, 1000, 1500, 51720, 9285, 510, 120).unwrap()
            .with_image("https://example.com/oasis.png"),
    );
    db.add_monster(
        Monster::new("kimaira", "キマイラ", 30, 1000, 900, 2985, 0, 993, 120).unwrap().with_image(
            "https://example.com/kimaira.png",
        ),
    );
    db
}

} // verus!
