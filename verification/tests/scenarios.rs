use word_guesser::game::Game;

#[test]
fn cat_is_revealed_letter_by_letter() {
    let game = Game::new(String::from("cat"), '.');
    assert_eq!(game.revealed(), "...");
    assert_eq!(game.guesses(), 0);
    assert!(!game.is_won());

    let game = game.guess('c');
    assert_eq!(game.revealed(), "c..");
    assert_eq!(game.guesses(), 1);
    assert!(!game.is_won());

    let game = game.guess('a');
    assert_eq!(game.revealed(), "ca.");
    assert_eq!(game.guesses(), 2);
    assert!(!game.is_won());

    let game = game.guess('t');
    assert_eq!(game.revealed(), "cat");
    assert_eq!(game.guesses(), 3);
    assert!(game.is_won());
    assert_eq!(game.optimal_guesses(), 3);

    let screen = game.render();
    let outcome = screen.outcome.expect("the game is won");
    assert_eq!(outcome.word, "cat");
    assert_eq!(outcome.guesses, 3);
    assert_eq!(outcome.optimal, 3);
}

#[test]
fn one_guess_reveals_every_occurrence() {
    let game = Game::new(String::from("moon"), '.').guess('o');
    assert_eq!(game.revealed(), ".oo.");
    assert_ne!(game.revealed(), "co..");
    assert_eq!(game.guesses(), 1);
    assert_eq!(game.guessed(), &vec!['o']);
    assert!(!game.is_won());
}

#[test]
fn bob_is_won_in_lowercase_and_reported_in_its_own_case() {
    let game = Game::new(String::from("Bob"), '.');
    assert_eq!(game.target(), "bob");
    assert_eq!(game.revealed(), "...");

    let game = game.guess('b');
    assert_eq!(game.revealed(), "b.b");
    let game = game.guess('o');
    assert_eq!(game.revealed(), "bob");
    assert!(game.is_won());

    let screen = game.render();
    assert_eq!(screen.revealed, "bob");
    assert_eq!(screen.guessed, "b, o");
    assert_eq!(screen.guesses, 2);
    let outcome = screen.outcome.expect("the game is won");
    assert_eq!(outcome.word, "Bob");
    assert_eq!(outcome.guesses, 2);
    // 'B', 'b' and 'o' are three distinct characters.
    assert_eq!(outcome.optimal, 3);
}

#[test]
fn start_on_a_single_word_plays_that_word() {
    let wordlist = vec![String::from("cat")];
    let game = Game::start(&wordlist, '.').expect("the list is not empty");
    assert_eq!(game.word(), "cat");
    assert_eq!(game.target(), "cat");
    assert_eq!(game.fill(), '.');
    assert_eq!(game.revealed(), "...");
    assert_eq!(game.guesses(), 0);
    assert!(game.guessed().is_empty());
}

#[test]
fn start_on_an_empty_list_gives_no_game() {
    let wordlist: Vec<String> = Vec::new();
    assert!(Game::start(&wordlist, '.').is_none());
}

#[test]
fn start_picks_a_listed_word() {
    let wordlist = vec![String::from("Alpha"), String::from("beta"), String::from("gamma ray")];
    for _ in 0..50 {
        let game = Game::start(&wordlist, '*').expect("the list is not empty");
        assert!(wordlist.iter().any(|w| w == game.word()));
        assert_eq!(game.target(), game.word().to_lowercase());
        assert_eq!(game.guesses(), 0);
        assert_eq!(game.fill(), '*');
    }
}
